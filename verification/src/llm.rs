//! What the server sends to the Mercury LLM and how it reads the replies:
//! the prompts, the chat messages, and the cleanup of a reply before it is
//! parsed as JSON.
use vstd::prelude::*;
use crate::text::{has_prefix, has_suffix, trim, trimmed, starts_with, ends_with};

verus! {

/// The model that every request names.
pub const MODEL: &'static str = "mercury-2";

/// The analysis prompt up to the list of existing intents.
pub const ANALYSIS_OPENING: &'static str = "You are analyzing social media posts for a content analytics platform.\n\nFor each post, extract:\n1. **Intent** — what the post is trying to do (one per post)\n2. **Subject** — what the post is about (one per post)\n3. **Sentiment** — emotional tone (-1.0 to 1.0)\n4. **Emotion** — the dominant emotional quality of the post (one per post)\n\n## Intent (pick exactly one)\nThe communicative purpose of the post. Seed examples:\n- Question: asking the audience something\n- Hot take: strong opinion meant to provoke thought\n- Humor: joke, wordplay, absurdist observation\n- Story: personal anecdote or experience\n- Tip: sharing something useful or instructional\n- Hype: excitement, celebrating a win or milestone\n- Rant: frustration, complaint, venting\n- Observation: noticing something interesting, neutral tone\n- Promotion: sharing own work, project, or product\n\nYou may create new intents if a post genuinely doesn't fit any of these, but apply the reusability test first.\n\n## Subject (pick exactly one)\nThe topic domain of the post. Seed examples:\n- AI & LLMs, Software dev, Side projects, Social media, Productivity, Daily life, Gaming, Career, Health, Culture, Tech industry, Politics\n\nYou may create new subjects at this same granularity level.\n\n## Emotion (pick exactly one)\nThe dominant emotional quality of the post. Pick from this fixed list only:\n- Vulnerable: openness, personal sharing, admitting uncertainty\n- Curious: questions, exploration, wonder\n- Playful: humor, wit, lightheartedness\n- Confident: strong opinions, assertions, expertise\n- Reflective: introspection, lessons learned, looking back\n- Frustrated: venting, complaints, friction\n- Provocative: hot takes, challenging norms, debate-starting\n\nAlways pick exactly one from this list. Do not create new emotions.\n\n## Rules\n1. REUSABILITY TEST: Before creating a new intent or subject, ask: \"Would this apply to at least 10 posts from a typical creator?\" If no, use a broader existing tag.\n2. NO COMPOUND TAGS: \"Coffee humor\" is wrong. That's intent=Humor, subject=Daily life.\n3. PREFER EXISTING: Always reuse an existing intent/subject before creating a new one.\n4. SHORT NAMES: Max 3 words per tag.\n5. NEVER describe a single post's specific content as a tag. \"UNO house rules\" → subject=Gaming, intent=Question. \"Parking preference\" → subject=Daily life, intent=Question.\n6. EMOTION IS FIXED: Only use one of the 7 listed emotions. Never invent new ones.\n\nExisting intents: ";

/// Between the existing intents and the existing subjects.
pub const ANALYSIS_SUBJECTS: &'static str = "\nExisting subjects: ";

/// Between the existing subjects and the posts.
pub const ANALYSIS_POSTS: &'static str = "\n\nPosts: ";

/// After the posts: the reply format.
pub const ANALYSIS_CLOSING: &'static str = "\n\nRespond with ONLY valid JSON:\n{\"posts\": [{\"post_id\": \"...\", \"intent\": \"...\", \"subject\": \"...\", \"sentiment\": 0.5, \"emotion\": \"curious\"}]}";

/// The system prompt of the insights report.
pub const INSIGHTS_SYSTEM_PROMPT: &'static str = "You are a candid friend who happens to be a world-class content strategist. You've just reviewed 30 days of someone's Threads posts along with their engagement and view data. You care about this person's growth and you're not going to sugarcoat things — but you're also not harsh. You're direct, specific, and grounded in the numbers.\n\nRespond with ONLY valid JSON matching this exact structure:\n{\n  \"headline\": \"<one punchy sentence that captures the most important thing to know right now>\",\n  \"sections\": [\n    {\n      \"key\": \"working\",\n      \"title\": \"What's Working\",\n      \"summary\": \"<2-3 sentences on patterns driving results>\",\n      \"items\": [\n        {\n          \"observation\": \"<specific, data-grounded observation>\",\n          \"cited_posts\": [\"<post id>\", ...],\n          \"tone\": \"positive\"\n        }\n      ]\n    },\n    {\n      \"key\": \"not_working\",\n      \"title\": \"What's Not Working\",\n      \"summary\": \"<2-3 sentences on patterns that are underperforming>\",\n      \"items\": [\n        {\n          \"observation\": \"<specific, data-grounded observation>\",\n          \"cited_posts\": [\"<post id>\", ...],\n          \"tone\": \"negative\"\n        }\n      ]\n    },\n    {\n      \"key\": \"on_brand\",\n      \"title\": \"On Brand\",\n      \"summary\": \"<2-3 sentences on consistent voice and topics>\",\n      \"items\": [\n        {\n          \"observation\": \"<specific observation about voice, subject matter, or consistency>\",\n          \"cited_posts\": [\"<post id>\", ...],\n          \"tone\": \"neutral\"\n        }\n      ]\n    },\n    {\n      \"key\": \"off_pattern\",\n      \"title\": \"Off Pattern\",\n      \"summary\": \"<2-3 sentences on anomalies, experiments, or departures from the norm>\",\n      \"items\": [\n        {\n          \"observation\": \"<specific observation about outliers or experiments>\",\n          \"cited_posts\": [\"<post id>\", ...],\n          \"tone\": \"neutral\"\n        }\n      ]\n    }\n  ]\n}\n\nRules:\n- Each section must have 2-4 items.\n- cited_posts should reference actual post IDs from the provided context.\n- Be specific: cite numbers, subjects, intents. Avoid vague statements like \"engagement is good\".\n- The headline should be something a person would actually say out loud to a friend, not a corporate summary.\n- Do not wrap JSON in markdown code fences.";

/// The system prompt of the emotion narrative.
pub const EMOTION_SYSTEM_PROMPT: &'static str = "You are a candid friend who is also a world-class content strategist. You've just reviewed 30 days of someone's social media posts, classified by emotional tone, alongside their engagement data (views, likes, replies, reposts). You care about this person's growth and you're direct, specific, and grounded in the numbers.\n\nRespond with ONLY valid JSON matching this exact structure:\n{\n  \"headline\": \"<one punchy sentence capturing the most important emotion-engagement insight>\",\n  \"observations\": [\n    {\n      \"text\": \"<specific, data-grounded observation about how an emotion correlates with audience response>\",\n      \"cited_posts\": [\"<post id>\", ...],\n      \"emotion\": \"<emotion name>\"\n    }\n  ]\n}\n\nRules:\n- Return exactly 3-5 observations.\n- Focus on the creator-audience relationship: which emotions resonate, which fall flat, which get reach but not engagement (or vice versa).\n- Compare emotions against each other: \"Your curious posts get 2x the views of your confident posts.\"\n- Comment on emotional range: is the creator one-note or diverse? Is that helping or hurting?\n- cited_posts should reference actual post IDs from the top_post_id fields when available.\n- The headline should sound like something a friend would say, not a corporate summary.\n- Be specific: cite numbers, percentages, emotion names. Avoid vague statements.\n- Do not wrap JSON in markdown code fences.";

/// What precedes the analytics context in the insights request.
pub const INSIGHTS_CONTEXT_INTRO: &'static str = "Here is the analytics data for the last 30 days:\n\n";

/// What precedes the emotion summary in the narrative request.
pub const EMOTION_CONTEXT_INTRO: &'static str = "Here is the emotion breakdown for the last 30 days:\n\n";

/// What stands for an empty list of existing tags.
pub const NONE_YET: &'static str = "None yet";

/// What separates the tags of a list.
pub const TAG_SEPARATOR: &'static str = ", ";

/// One message of a chat request.
#[derive(Debug)]
pub struct ChatMessage {
    pub role: String,
    pub content: String,
}

/// The items of `list` with `sep` between each two.
pub open spec fn joined(list: Seq<Seq<char>>, sep: Seq<char>) -> Seq<char>
    decreases list.len(),
{
    if list.len() == 0 {
        Seq::empty()
    } else if list.len() == 1 {
        list[0]
    } else {
        joined(list.drop_last(), sep) + sep + list.last()
    }
}

/// The text of each string of a list.
pub open spec fn texts(list: Seq<String>) -> Seq<Seq<char>> {
    list.map_values(|s: String| s@)
}

/// How a list of existing tags appears in the analysis prompt.
pub open spec fn tag_list(list: Seq<String>) -> Seq<char> {
    if list.len() == 0 {
        NONE_YET@
    } else {
        joined(texts(list), TAG_SEPARATOR@)
    }
}

/// The items of `list` with `sep` between each two, as `[String]::join` gives them.
pub fn join(list: &Vec<String>, sep: &str) -> (r: String)
    ensures
        r@ == joined(texts(list@), sep@),
{
    let mut r = String::new();
    let ghost t = texts(list@);
    let mut i: usize = 0;
    while i < list.len()
        invariant
            i <= list@.len(),
            t == texts(list@),
            r@ == joined(t.take(i as int), sep@),
        decreases list.len() - i,
    {
        assert(t.take(i + 1).drop_last() =~= t.take(i as int));
        assert(t[i as int] == list@[i as int]@);
        if i > 0 {
            r.append(sep);
        } else {
            assert(t.take(0) =~= Seq::<Seq<char>>::empty());
        }
        r.append(list[i].as_str());
        i = i + 1;
    }
    assert(t.take(list@.len() as int) =~= t);
    r
}

/// A list of existing tags as the analysis prompt shows it: "None yet" for
/// none, else the tags joined by ", ".
pub fn format_tag_list(list: &Vec<String>) -> (r: String)
    ensures
        r@ == tag_list(list@),
{
    if list.len() == 0 {
        String::from_str(NONE_YET)
    } else {
        join(list, TAG_SEPARATOR)
    }
}

/// The text of each pair of a list of (id, text) pairs.
pub open spec fn pair_texts(posts: Seq<(String, String)>) -> Seq<(Seq<char>, Seq<char>)> {
    posts.map_values(|p: (String, String)| (p.0@, p.1@))
}

/// What `serde_json::to_string_pretty` writes for the posts, each as an
/// object `{"id": .., "text": ..}`, in a JSON array.
pub uninterp spec fn pretty_posts_json(posts: Seq<(Seq<char>, Seq<char>)>) -> Seq<char>;

/// Serialises the posts as a pretty-printed JSON array of `{"id", "text"}`
/// objects with `serde_json::to_string_pretty` (empty where that fails).
/// Trusted: the result is `pretty_posts_json` of the posts' texts; nothing
/// else is claimed of serde_json's output.
#[verifier::external_body]
fn posts_json(posts: &Vec<(String, String)>) -> (s: String)
    ensures
        s@ == pretty_posts_json(pair_texts(posts@)),
{
    let mut objects: Vec<serde_json::Value> = Vec::new();
    for (id, text) in posts.iter() {
        let mut m = serde_json::Map::new();
        m.insert("id".to_string(), serde_json::Value::String(id.clone()));
        m.insert("text".to_string(), serde_json::Value::String(text.clone()));
        objects.push(serde_json::Value::Object(m));
    }
    serde_json::to_string_pretty(&objects).unwrap_or_default()
}

/// The analysis prompt, given the posts already written as JSON.
pub open spec fn analysis_prompt_text(posts_json: Seq<char>, intents: Seq<String>, subjects: Seq<String>) -> Seq<char> {
    ANALYSIS_OPENING@ + tag_list(intents) + ANALYSIS_SUBJECTS@ + tag_list(subjects) + ANALYSIS_POSTS@ + posts_json
        + ANALYSIS_CLOSING@
}

/// The analysis prompt around the given JSON text of the posts.
pub fn analysis_prompt_with_json(posts_json: &str, intents: &Vec<String>, subjects: &Vec<String>) -> (r: String)
    ensures
        r@ == analysis_prompt_text(posts_json@, intents@, subjects@),
{
    let mut r = String::from_str(ANALYSIS_OPENING);
    let il = format_tag_list(intents);
    r.append(il.as_str());
    r.append(ANALYSIS_SUBJECTS);
    let sl = format_tag_list(subjects);
    r.append(sl.as_str());
    r.append(ANALYSIS_POSTS);
    r.append(posts_json);
    r.append(ANALYSIS_CLOSING);
    r
}

/// The analysis prompt for the posts (pairs of id and text), listing the
/// intents and subjects that already exist.
pub fn analysis_prompt(posts: &Vec<(String, String)>, intents: &Vec<String>, subjects: &Vec<String>) -> (r: String)
    ensures
        r@ == analysis_prompt_text(pretty_posts_json(pair_texts(posts@)), intents@, subjects@),
{
    let j = posts_json(posts);
    analysis_prompt_with_json(j.as_str(), intents, subjects)
}

/// A message with the given role.
fn message(role: &str, content: String) -> (m: ChatMessage)
    ensures
        m.role@ == role@,
        m.content == content,
{
    ChatMessage { role: String::from_str(role), content }
}

/// The messages of the analysis request: the prompt, from the user.
pub fn analysis_messages(prompt: String) -> (ms: Vec<ChatMessage>)
    ensures
        ms@.len() == 1,
        ms@[0].role@ == "user"@,
        ms@[0].content == prompt,
{
    let mut ms: Vec<ChatMessage> = Vec::new();
    ms.push(message("user", prompt));
    ms
}

/// The messages of a report request: the system prompt, then the user's
/// introduction followed by the JSON context.
pub fn report_messages(system_prompt: &str, intro: &str, context_json: &str) -> (ms: Vec<ChatMessage>)
    ensures
        ms@.len() == 2,
        ms@[0].role@ == "system"@,
        ms@[0].content@ == system_prompt@,
        ms@[1].role@ == "user"@,
        ms@[1].content@ == intro@ + context_json@,
{
    let mut ms: Vec<ChatMessage> = Vec::new();
    ms.push(message("system", String::from_str(system_prompt)));
    let mut user = String::from_str(intro);
    user.append(context_json);
    ms.push(message("user", user));
    ms
}

/// The messages that ask for an insights report on the JSON context.
pub fn insights_messages(context_json: &str) -> (ms: Vec<ChatMessage>)
    ensures
        ms@.len() == 2,
        ms@[0].role@ == "system"@,
        ms@[0].content@ == INSIGHTS_SYSTEM_PROMPT@,
        ms@[1].role@ == "user"@,
        ms@[1].content@ == INSIGHTS_CONTEXT_INTRO@ + context_json@,
{
    report_messages(INSIGHTS_SYSTEM_PROMPT, INSIGHTS_CONTEXT_INTRO, context_json)
}

/// The messages that ask for an emotion narrative on the JSON summary.
pub fn emotion_messages(summary_json: &str) -> (ms: Vec<ChatMessage>)
    ensures
        ms@.len() == 2,
        ms@[0].role@ == "system"@,
        ms@[0].content@ == EMOTION_SYSTEM_PROMPT@,
        ms@[1].role@ == "user"@,
        ms@[1].content@ == EMOTION_CONTEXT_INTRO@ + summary_json@,
{
    report_messages(EMOTION_SYSTEM_PROMPT, EMOTION_CONTEXT_INTRO, summary_json)
}

/// The text of a reply: that of its first choice, empty where there is none.
pub fn first_choice_content(choices: &Vec<String>) -> (r: String)
    ensures
        choices@.len() == 0 ==> r@.len() == 0,
        choices@.len() > 0 ==> r == choices@[0],
{
    if choices.len() == 0 {
        String::new()
    } else {
        choices[0].clone()
    }
}

/// What is parsed of a reply: the trimmed reply with its markdown code
/// fences stripped where present (a leading "```json" or "```", whether or
/// not a closing fence follows, then a trailing "```"), and trimmed again.
pub open spec fn fenceless(content: Seq<char>) -> Seq<char> {
    let t = trimmed(content);
    let a = if has_prefix(t, "```json"@) {
        t.skip(7)
    } else if has_prefix(t, "```"@) {
        t.skip(3)
    } else {
        t
    };
    if has_suffix(a, "```"@) {
        trimmed(a.take(a.len() - 3))
    } else {
        trimmed(a)
    }
}

/// Strips the markdown code fences that the LLM may wrap its JSON in.
pub fn strip_code_fences(content: &str) -> (r: String)
    ensures
        r@ == fenceless(content@),
{
    proof {
        reveal_strlit("```json");
        reveal_strlit("```");
    }
    let t = trim(content);
    let tl = t.as_str().unicode_len();
    let start: usize = if starts_with(t.as_str(), "```json") {
        7
    } else if starts_with(t.as_str(), "```") {
        3
    } else {
        0
    };
    let a = t.as_str().substring_char(start, tl);
    assert(a@ =~= t@.skip(start as int));
    assert(t@.skip(0) =~= t@);
    assert(a@ == (if has_prefix(t@, "```json"@) {
        t@.skip(7)
    } else if has_prefix(t@, "```"@) {
        t@.skip(3)
    } else {
        t@
    }));
    if ends_with(a, "```") {
        let al = a.unicode_len();
        let inner = a.substring_char(0, al - 3);
        assert(inner@ =~= a@.take(a@.len() - 3));
        trim(inner)
    } else {
        trim(a)
    }
}

} // verus!
