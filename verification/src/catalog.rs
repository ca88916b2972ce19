//! The static reference data: the questionnaire word groups and the named
//! behavioral profiles.
//!
//! Both catalogs are fixed tables, built once and never mutated by the
//! engine.  The questionnaire holds 28 ordered groups of four (word,
//! most-trait, least-trait) entries; the profile table holds the fifteen
//! named patterns in rule-table order, followed by the "Invalid" sentinel.

use crate::types::Choice;
use crate::types::Profile;
use vstd::prelude::*;

verus! {

/// The codes a catalog entry may carry: the four traits and the filler.
/// `NONE` marks an unanswered response slot and never appears in the
/// catalog itself.
pub open spec fn is_catalog_code(c: Choice) -> bool {
    c == Choice::A || c == Choice::B || c == Choice::C || c == Choice::D || c == Choice::E
}

/// Builds one catalog entry: a word and its "most"/"least" trait codes.
fn entry(word: &str, most: Choice, least: Choice) -> (e: (String, Choice, Choice))
    requires
        is_catalog_code(most),
        is_catalog_code(least),
    ensures
        e.0@ == word@,
        e.1 == most,
        e.2 == least,
{
    (word.to_string(), most, least)
}

/// Builds one question group from its four entries.
fn group(
    e0: (String, Choice, Choice),
    e1: (String, Choice, Choice),
    e2: (String, Choice, Choice),
    e3: (String, Choice, Choice),
) -> (g: Vec<(String, Choice, Choice)>)
    ensures
        g@ == seq![e0, e1, e2, e3],
{
    let mut g: Vec<(String, Choice, Choice)> = Vec::new();
    g.push(e0);
    g.push(e1);
    g.push(e2);
    g.push(e3);
    proof {
        assert(g@ =~= seq![e0, e1, e2, e3]);
    }
    g
}

/// The questionnaire catalog: 28 ordered groups of four words, each word
/// carrying the trait code credited when it is marked "most like me" and
/// the one debited when it is marked "least like me".  The words and codes
/// are fixed reference data; the engine never mutates them.
///
/// Every code in the table is a selectable one (a trait or the filler,
/// never `NONE`), so each word contributes to the tally, or deliberately to
/// nothing, on both slots.
pub fn question_catalog() -> (q: Vec<Vec<(String, Choice, Choice)>>)
    ensures
        q@.len() == 28,
        forall|g: int| 0 <= g < 28 ==> q@[g]@.len() == 4,
        forall|g: int, j: int|
            0 <= g < 28 && 0 <= j < 4 ==> is_catalog_code(#[trigger] q@[g]@[j].1) && is_catalog_code(
                q@[g]@[j].2,
            ),
        q@[0]@[0].0@ == "enthusiastic"@ && q@[0]@[0].1 == Choice::B && q@[0]@[0].2 == Choice::B,
        q@[0]@[1].0@ == "daring"@ && q@[0]@[1].1 == Choice::A && q@[0]@[1].2 == Choice::A,
        q@[0]@[2].0@ == "diplomatic"@ && q@[0]@[2].1 == Choice::D && q@[0]@[2].2 == Choice::D,
        q@[0]@[3].0@ == "satisfied"@ && q@[0]@[3].1 == Choice::C && q@[0]@[3].2 == Choice::C,
{
    let mut q: Vec<Vec<(String, Choice, Choice)>> = Vec::new();
    q.push(group(
        entry("enthusiastic", Choice::B, Choice::B),
        entry("daring", Choice::A, Choice::A),
        entry("diplomatic", Choice::D, Choice::D),
        entry("satisfied", Choice::C, Choice::C),
    ));
    q.push(group(
        entry("cautious", Choice::D, Choice::D),
        entry("determined", Choice::A, Choice::A),
        entry("convincing", Choice::B, Choice::B),
        entry("good-natured", Choice::C, Choice::E),
    ));
    q.push(group(
        entry("friendly", Choice::B, Choice::E),
        entry("accurate", Choice::D, Choice::D),
        entry("outspoken", Choice::A, Choice::A),
        entry("calm", Choice::E, Choice::C),
    ));
    q.push(group(
        entry("talkative", Choice::B, Choice::B),
        entry("controlled", Choice::D, Choice::D),
        entry("conventional", Choice::C, Choice::C),
        entry("decisive", Choice::A, Choice::A),
    ));
    q.push(group(
        entry("adventurous", Choice::A, Choice::A),
        entry("insightful", Choice::D, Choice::D),
        entry("outgoing", Choice::B, Choice::B),
        entry("moderate", Choice::C, Choice::C),
    ));
    q.push(group(
        entry("gentle", Choice::C, Choice::C),
        entry("persuasive", Choice::B, Choice::E),
        entry("humble", Choice::E, Choice::D),
        // The "most" slot of this word is normalized to the dominance code,
        // matching its "least" slot as every other scored word pairs; a
        // blank (NONE) code here would break the catalog invariant and make
        // the word weightless when picked as "most".
        entry("original", Choice::A, Choice::A),
    ));
    q.push(group(
        entry("expressive", Choice::B, Choice::B),
        entry("conscientious", Choice::D, Choice::D),
        entry("dominant", Choice::A, Choice::A),
        entry("responsive", Choice::E, Choice::C),
    ));
    q.push(group(
        entry("poised", Choice::B, Choice::B),
        entry("observant", Choice::D, Choice::E),
        entry("modest", Choice::C, Choice::C),
        entry("impatient", Choice::A, Choice::A),
    ));
    q.push(group(
        entry("tactful", Choice::D, Choice::D),
        entry("agreeable", Choice::C, Choice::C),
        entry("magnetic", Choice::B, Choice::B),
        entry("insistent", Choice::A, Choice::A),
    ));
    q.push(group(
        entry("brave", Choice::A, Choice::A),
        entry("inspiring", Choice::B, Choice::B),
        entry("submissive", Choice::C, Choice::C),
        entry("timid", Choice::E, Choice::D),
    ));
    q.push(group(
        entry("reserved", Choice::D, Choice::D),
        entry("obliging", Choice::C, Choice::C),
        entry("strong-willed", Choice::A, Choice::A),
        entry("cheerful", Choice::B, Choice::B),
    ));
    q.push(group(
        entry("stimulating", Choice::B, Choice::B),
        entry("kind", Choice::C, Choice::C),
        entry("perceptive", Choice::D, Choice::D),
        entry("independent", Choice::A, Choice::A),
    ));
    q.push(group(
        entry("competitive", Choice::A, Choice::A),
        entry("considerate", Choice::C, Choice::C),
        entry("joyful", Choice::B, Choice::B),
        entry("private", Choice::D, Choice::D),
    ));
    q.push(group(
        entry("fussy", Choice::D, Choice::D),
        entry("obedient", Choice::C, Choice::C),
        entry("firm", Choice::A, Choice::A),
        entry("playful", Choice::B, Choice::B),
    ));
    q.push(group(
        entry("attractive", Choice::B, Choice::B),
        entry("introspective", Choice::D, Choice::E),
        entry("stubborn", Choice::A, Choice::A),
        entry("predictable", Choice::C, Choice::C),
    ));
    q.push(group(
        entry("logical", Choice::D, Choice::D),
        entry("bold", Choice::A, Choice::A),
        entry("loyal", Choice::C, Choice::C),
        entry("charming", Choice::B, Choice::B),
    ));
    q.push(group(
        entry("sociable", Choice::B, Choice::B),
        entry("patient", Choice::C, Choice::C),
        entry("self-reliant", Choice::A, Choice::A),
        entry("soft-spoken", Choice::D, Choice::D),
    ));
    q.push(group(
        entry("willing", Choice::C, Choice::C),
        entry("eager", Choice::A, Choice::E),
        entry("thorough", Choice::D, Choice::D),
        entry("high-spririted", Choice::B, Choice::B),
    ));
    q.push(group(
        entry("aggressive", Choice::A, Choice::A),
        entry("extroverted", Choice::B, Choice::B),
        entry("amiable", Choice::C, Choice::C),
        entry("fearful", Choice::E, Choice::D),
    ));
    q.push(group(
        entry("confident", Choice::B, Choice::B),
        entry("sympathetic", Choice::C, Choice::C),
        entry("impartial", Choice::E, Choice::D),
        entry("assertive", Choice::A, Choice::A),
    ));
    q.push(group(
        entry("well-disciplined", Choice::D, Choice::D),
        entry("generous", Choice::C, Choice::C),
        entry("animated", Choice::B, Choice::B),
        entry("persistent", Choice::A, Choice::A),
    ));
    q.push(group(
        entry("impulsive", Choice::B, Choice::B),
        entry("introverted", Choice::D, Choice::D),
        entry("forceful", Choice::A, Choice::A),
        entry("easygoing", Choice::C, Choice::C),
    ));
    q.push(group(
        entry("good mixer", Choice::B, Choice::B),
        entry("refined", Choice::D, Choice::D),
        entry("vigorous", Choice::A, Choice::A),
        entry("lenient", Choice::C, Choice::C),
    ));
    q.push(group(
        entry("captivating", Choice::B, Choice::B),
        entry("contented", Choice::C, Choice::C),
        entry("demanding", Choice::A, Choice::A),
        entry("compliant", Choice::D, Choice::D),
    ));
    q.push(group(
        entry("argumentative", Choice::A, Choice::A),
        entry("systematic", Choice::D, Choice::D),
        entry("cooperative", Choice::C, Choice::C),
        entry("light-hearted", Choice::B, Choice::B),
    ));
    q.push(group(
        entry("jovial", Choice::B, Choice::B),
        entry("precise", Choice::D, Choice::D),
        entry("direct", Choice::A, Choice::A),
        entry("even-tempered", Choice::C, Choice::C),
    ));
    q.push(group(
        entry("restless", Choice::A, Choice::A),
        entry("neighborly", Choice::C, Choice::C),
        entry("appealing", Choice::B, Choice::B),
        entry("careful", Choice::D, Choice::D),
    ));
    q.push(group(
        entry("respectful", Choice::D, Choice::D),
        entry("pioneering", Choice::A, Choice::A),
        entry("optimistic", Choice::B, Choice::B),
        entry("helpful", Choice::C, Choice::C),
    ));
    q
}
/// Builds one aspect pair of a profile.
fn aspect(label: &str, text: &str) -> (String, String) {
    (label.to_string(), text.to_string())
}

/// The profile catalog: the fifteen named behavioral patterns, in the
/// order the classification rule table refers to them by index, followed
/// by the "Invalid" sentinel (empty aspect list, empty narrative) that the
/// classifier falls back to when no rule matches.
pub fn profile_catalog() -> (q: Vec<Profile>)
    ensures
        q@.len() == 16,
        q@[0]@.name == "Achiever"@,
        q@[1]@.name == "Agent"@,
        q@[2]@.name == "Appraiser"@,
        q@[3]@.name == "Counselor"@,
        q@[4]@.name == "Creative"@,
        q@[5]@.name == "Developer"@,
        q@[6]@.name == "Inspirational"@,
        q@[7]@.name == "Investigator"@,
        q@[8]@.name == "Objective Thinker"@,
        q@[9]@.name == "Perfectionist"@,
        q@[10]@.name == "Persuader"@,
        q@[11]@.name == "Practitioner"@,
        q@[12]@.name == "Promoter"@,
        q@[13]@.name == "Result-Oriented"@,
        q@[14]@.name == "Specialist"@,
        q@[15]@.name == "Invalid"@,
        forall|k: int| 0 <= k < 15 ==> (#[trigger] q@[k]@.aspects).len() > 0,
        q@[15]@.aspects.len() == 0,
        q@[15]@.content.len() == 0,
{
    let mut q: Vec<Profile> = Vec::new();

    let mut aspects: Vec<(String, String)> = Vec::new();
    aspects.push(aspect("Emotions:", "is industrious and diligent; displays frustration"));
    aspects.push(aspect("Goal:", "personal accomplishments, sometimes at the expense of the group's goal"));
    aspects.push(aspect("Judges others by:", "ability to achieve concrete results"));
    aspects.push(aspect("Influences others by:", "accountability for own work"));
    aspects.push(aspect("Value to the organization:", "sets and completes key result areas for self"));
    aspects.push(aspect("Overuses:", "self-reliance; absorption in the task"));
    aspects.push(aspect("Under pressure:", "becomes frustrated and impatient; becomes more of a\"do-er\" and less of a \"delegator\""));
    aspects.push(aspect("Fears", "others with competing or inferior work standards affecting results"));
    aspects.push(aspect("Would increase effectiveness through:", "less \"either-or\" thinking; cleaner task priorities; consideration of optional approaches; willingness to compromise short-term for long-range benefits"));
    q.push(Profile { name: "Achiever".to_string(), aspects, content: "".to_string() });

    let mut aspects: Vec<(String, String)> = Vec::new();
    aspects.push(aspect("Emotions:", "accepts affection; rejects aggression"));
    aspects.push(aspect("Goal:", "group acceptance"));
    aspects.push(aspect("Judges others by:", "commitment to tolerate and include everyone"));
    aspects.push(aspect("Influences others by:", "empathy; friendship"));
    aspects.push(aspect("Value to the organization:", "supports, harmonizes, empathizes; focuses on service"));
    aspects.push(aspect("Overuses:", "kindness"));
    aspects.push(aspect("Under pressure:", "becomes persuasive, using information or key friendships if necessary"));
    aspects.push(aspect("Fears", "dissent; conflict"));
    aspects.push(aspect("Would increase effectiveness through:", "strength in the realization of who they are and what they can do; firmness and self-assertion; ability to say \"no\" when appropriate"));
    q.push(Profile { name: "Agent".to_string(), aspects, content: "".to_string() });

    let mut aspects: Vec<(String, String)> = Vec::new();
    aspects.push(aspect("Emotions:", "is driven to look good"));
    aspects.push(aspect("Goal:", "\"victory\" with flair"));
    aspects.push(aspect("Judges others by:", "ability to initiate activities"));
    aspects.push(aspect("Influences others by:", "competitive recognition"));
    aspects.push(aspect("Value to the organization:", "accomplishes goals with the team"));
    aspects.push(aspect("Overuses:", "authority; ingenuity"));
    aspects.push(aspect("Under pressure:", "becomes restless, critical, impatient"));
    aspects.push(aspect("Fears", "\"loss\" or \"failure\"; others' disapproval"));
    aspects.push(aspect("Would increase effectiveness through:", "individual follow-through; empathy when showing disapproval; steadier pace"));
    q.push(Profile { name: "Appraiser".to_string(), aspects, content: "".to_string() });

    let mut aspects: Vec<(String, String)> = Vec::new();
    aspects.push(aspect("Emotions:", "is approachable; shows affection and understanding"));
    aspects.push(aspect("Goal:", "friendship; happiness"));
    aspects.push(aspect("Judges others by:", "positive acceptance or others; ability to look for the good in people"));
    aspects.push(aspect("Influences others by:", "personal relationships; \"open door\" policy"));
    aspects.push(aspect("Value to the organization:", "remains stable and predictable; develops a wide range of friendships; listens to others' feelings"));
    aspects.push(aspect("Overuses:", "indirect approach; tolerance"));
    aspects.push(aspect("Under pressure:", "becomes overly flexible and intimate; is too trusting without differentiating among people"));
    aspects.push(aspect("Fears", "pressuring people; being accused of causing harm"));
    aspects.push(aspect("Would increase effectiveness through:", "attention to realistic deadlines; initiative to complete the task"));
    q.push(Profile { name: "Counselor".to_string(), aspects, content: "".to_string() });

    let mut aspects: Vec<(String, String)> = Vec::new();
    aspects.push(aspect("Emotions:", "accepts aggression; restrains expression"));
    aspects.push(aspect("Goal:", "dominance; unique accomplishments"));
    aspects.push(aspect("Judges others by:", "personal standards; progressive ideas for accomplishing tasks"));
    aspects.push(aspect("Influences others by:", "ability to pace development of systems and innovative approaches"));
    aspects.push(aspect("Value to the organization:", "initiates or designs change"));
    aspects.push(aspect("Overuses:", "bluntness; critical or condescending attitude"));
    aspects.push(aspect("Under pressure:", "becomes bored with routine work; sulks when restrained; acts independently"));
    aspects.push(aspect("Fears", "lack of influence; failure to achieve their standards"));
    aspects.push(aspect("Would increase effectiveness through:", "warmth; tactful communication; effective team cooperation; recognition of existing sanctions"));
    q.push(Profile { name: "Creative".to_string(), aspects, content: "".to_string() });

    let mut aspects: Vec<(String, String)> = Vec::new();
    aspects.push(aspect("Emotions:", "is concerned with meeting personal needs"));
    aspects.push(aspect("Goal:", "new opportunities"));
    aspects.push(aspect("Judges others by:", "ability to meet the Developer's standards"));
    aspects.push(aspect("Influences others by:", "finding solutions to problems; projecting a personal sense of power"));
    aspects.push(aspect("Value to the organization:", "avoids \"passing the buck\"; seeks new or innovative problem-solving methods"));
    aspects.push(aspect("Overuses:", "control over people and situations to accomplish his or her own results"));
    aspects.push(aspect("Under pressure:", "works alone to complete tasks; is belligerant if individualism is threatened or challenging opportunities disappear"));
    aspects.push(aspect("Fears", "boredom; loss of control"));
    aspects.push(aspect("Would increase effectiveness through:", "patience, empathy; participation and collaboration with others; follow-through and attention to quality control"));
    q.push(Profile { name: "Developer".to_string(), aspects, content: "".to_string() });

    let mut aspects: Vec<(String, String)> = Vec::new();
    aspects.push(aspect("Emotions:", "accepts aggression; downplays need for affection"));
    aspects.push(aspect("Goal:", "control of their environment or audience"));
    aspects.push(aspect("Judges others by:", "projection of personal strength, character, and social power"));
    aspects.push(aspect("Influences others by:", "charm, direction, intimidation; use of rewards"));
    aspects.push(aspect("Value to the organization:", "acts as a \"people mover\"; initiates, demands, compliments, disciplines"));
    aspects.push(aspect("Overuses:", "attitude that \"the ends justify the means\""));
    aspects.push(aspect("Under pressure:", "becomes manipulative, quarrelsome or belligerant"));
    aspects.push(aspect("Fears", "weak behavior; loss of social status"));
    aspects.push(aspect("Would increase effectiveness through:", "genuine sensitivity; willingness to help others to succeed in their own personal development"));
    q.push(Profile { name: "Inspirational".to_string(), aspects, content: "".to_string() });

    let mut aspects: Vec<(String, String)> = Vec::new();
    aspects.push(aspect("Emotions:", "is dispassionate; demonstrates self-discipline"));
    aspects.push(aspect("Goal:", "power through formal roles and positions of authority"));
    aspects.push(aspect("Judges others by:", "use of factual information"));
    aspects.push(aspect("Influences others by:", "determination, tenacity"));
    aspects.push(aspect("Value to the organization:", "offers comprehensive follow-through; works determinedly on tasks individuall or in a small group"));
    aspects.push(aspect("Overuses:", "bluntness; suspicion of others"));
    aspects.push(aspect("Under pressure:", "tends to internalize conflict; holds on to grudges"));
    aspects.push(aspect("Fears", "involvement with the masses; responsibility to sell abstract ideas"));
    aspects.push(aspect("Would increase effectiveness through:", "flexibility; acceptance or others; personal involvement with others"));
    q.push(Profile { name: "Investigator".to_string(), aspects, content: "".to_string() });

    let mut aspects: Vec<(String, String)> = Vec::new();
    aspects.push(aspect("Emotions:", "rejects interpersonal aggression"));
    aspects.push(aspect("Goal:", "correctness"));
    aspects.push(aspect("Judges others by:", "ability to think logically"));
    aspects.push(aspect("Influences others by:", "use of facts, data, and logical arguments"));
    aspects.push(aspect("Value to the organization:", "defines and clarifies; obtains, evaluates, and tests information"));
    aspects.push(aspect("Overuses:", "analysis"));
    aspects.push(aspect("Under pressure:", "becomes worrisome"));
    aspects.push(aspect("Fears", "irrational acts; ridicule"));
    aspects.push(aspect("Would increase effectiveness through:", "self-disclosure; public discussion of their insights and opinions"));
    q.push(Profile { name: "Objective Thinker".to_string(), aspects, content: "".to_string() });

    let mut aspects: Vec<(String, String)> = Vec::new();
    aspects.push(aspect("Emotions:", "displays competence; is restrained and cautious"));
    aspects.push(aspect("Goal:", "stability; predictble accomplishments"));
    aspects.push(aspect("Judges others by:", "precise standards"));
    aspects.push(aspect("Influences others by:", "attention to detail; accuracy"));
    aspects.push(aspect("Value to the organization:", "is conscientious; maintains standards; controls quality"));
    aspects.push(aspect("Overuses:", "procedures and \"fail-safe\" controls; overdependence on people, products, and processes that have worked in past"));
    aspects.push(aspect("Under pressure:", "becomes tactful and diplomatic"));
    aspects.push(aspect("Fears", "antogonism"));
    aspects.push(aspect("Would increase effectiveness through:", "role flexibility; independence and interdependence; belief in self-worth"));
    q.push(Profile { name: "Perfectionist".to_string(), aspects, content: "".to_string() });

    let mut aspects: Vec<(String, String)> = Vec::new();
    aspects.push(aspect("Emotions:", "trusts others; is enthusiastic"));
    aspects.push(aspect("Goal:", "authority and prestige; status symbols"));
    aspects.push(aspect("Judges others by:", "ability to express themselves; flexibility"));
    aspects.push(aspect("Influences others by:", "friendly, open manner; verbal skills"));
    aspects.push(aspect("Value to the organization:", "sells and closes; delegates responsibility; is poised and confident"));
    aspects.push(aspect("Overuses:", "enthusiasm; selling ability; optimism"));
    aspects.push(aspect("Under pressure:", "becomes indecisive and is easily persuaded; becomes organized in order to look good"));
    aspects.push(aspect("Fears", "fixed environment; complex relationships"));
    aspects.push(aspect("Would increase effectiveness through:", "challenging assignments; attention to task-oriented service and key details; objective data analysis"));
    q.push(Profile { name: "Persuader".to_string(), aspects, content: "".to_string() });

    let mut aspects: Vec<(String, String)> = Vec::new();
    aspects.push(aspect("Emotions:", "wants to keep up with others in effort and technical performance"));
    aspects.push(aspect("Goal:", "personal growth"));
    aspects.push(aspect("Judges others by:", "self-discipline; position and promotions"));
    aspects.push(aspect("Influences others by:", "confidence in their ability to master new skills; development of \"proper\" procedures and actions"));
    aspects.push(aspect("Value to the organization:", "is skilled in technical and people problem-solving; displays proficiency and specialization"));
    aspects.push(aspect("Overuses:", "overattention to personal objectives; unrealistic expectations of others"));
    aspects.push(aspect("Under pressure:", "becomes restrained; is sensitive to criticism"));
    aspects.push(aspect("Fears", "being too predictable; no recognition as an \"expert\""));
    aspects.push(aspect("Would increase effectiveness through:", "genuine collaboration for common benefit; delegation of key tasks to appropriate individuals"));
    q.push(Profile { name: "Practitioner".to_string(), aspects, content: "".to_string() });

    let mut aspects: Vec<(String, String)> = Vec::new();
    aspects.push(aspect("Emotions:", "is willing to accept others"));
    aspects.push(aspect("Goal:", "approval, popularity"));
    aspects.push(aspect("Judges others by:", "verbal skills"));
    aspects.push(aspect("Influences others by:", "praise, opportunities, favors"));
    aspects.push(aspect("Value to the organization:", "relieves tension; promotes projects and people, including him or herself"));
    aspects.push(aspect("Overuses:", "praise, optimism"));
    aspects.push(aspect("Under pressure:", "becomes careless and sentimental; is disorganized"));
    aspects.push(aspect("Fears", "loss of social acceptance and self-worth"));
    aspects.push(aspect("Would increase effectiveness through:", "control of time; objectivity; sense of urgency; emotional control; follow-through on promises and tasks"));
    q.push(Profile { name: "Promoter".to_string(), aspects, content: "".to_string() });

    let mut aspects: Vec<(String, String)> = Vec::new();
    aspects.push(aspect("Emotions:", "verbalizes ego strength; displays rugged individualism"));
    aspects.push(aspect("Goal:", "dominance and independence"));
    aspects.push(aspect("Judges others by:", "ability to accomplish tasks quickly"));
    aspects.push(aspect("Influences others by:", "force of character; diligence"));
    aspects.push(aspect("Value to the organization:", "persistence; doggedness"));
    aspects.push(aspect("Overuses:", "impatience; \"win-lose\" competition"));
    aspects.push(aspect("Under pressure:", "becomes critical and fault-finding; resists participating with a team; may overstep boundaries"));
    aspects.push(aspect("Fears", "others with take advantage of them; slowness, especially in task activities; being a pushover"));
    aspects.push(aspect("Would increase effectiveness through:", "explanation of their reasoning and consideration of other views and ideas about goals and solutions to problems; genuine concern for other; patience and humility"));
    q.push(Profile { name: "Result-Oriented".to_string(), aspects, content: "".to_string() });

    let mut aspects: Vec<(String, String)> = Vec::new();
    aspects.push(aspect("Emotions:", "is calculatingly moderate; accommodates others"));
    aspects.push(aspect("Goal:", "maintenance of the status quo; controlled environment"));
    aspects.push(aspect("Judges others by:", "friendship standards; competence"));
    aspects.push(aspect("Influences others by:", "consistent performance; accommodating others"));
    aspects.push(aspect("Value to the organization:", "plans short term; is predictable, consistent; maintains steady pace"));
    aspects.push(aspect("Overuses:", "modesty; low risk-taking; passive resistance to innovation"));
    aspects.push(aspect("Under pressure:", "becomes adaptable to those in authority and think with the group"));
    aspects.push(aspect("Fears", "change, disorganization"));
    aspects.push(aspect("Would increase effectiveness through:", "public discussion of their ideas; self-confidence based on feedback; shortcut methods"));
    q.push(Profile { name: "Specialist".to_string(), aspects, content: "".to_string() });

    q.push(Profile { name: "Invalid".to_string(), aspects: Vec::new(), content: "".to_string() });

    proof {
        reveal_strlit("");
    }
    q
}
} // verus!
