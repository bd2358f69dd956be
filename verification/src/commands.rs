//! The slash and prefix commands of the bot: what each one answers.

use vstd::prelude::*;
use crate::reply::{Attachment, Embed, EmbedColour, Reply, opt_text};

verus! {

/// Where the picture of the `gimper` command is read from at start-up.
pub const GIMPER_IMAGE_PATH: &'static str = "./img/gimper.jpg";

/// The name under which the gimper picture is sent.
pub open spec fn gimper_filename() -> Seq<char> {
    "gimper.jpg"@
}

/// Wraps the bytes of the gimper picture into the attachment the `gimper` command sends.
pub fn create_gimper_attachment(data: Vec<u8>) -> (att: Attachment)
    ensures
        att.data@ == data@,
        att.filename@ == gimper_filename(),
        att.filename@ == "gimper.jpg"@,
{
    Attachment { data, filename: "gimper.jpg".to_string() }
}

/// The reply of the `gimper` command: a copy of the stored picture, nothing else.
pub fn gimper(stored: &Attachment) -> (reply: Reply)
    ensures
        reply.content is None,
        reply.embed is None,
        reply.attachment matches Some(att) && att.data@ == stored.data@
            && att.filename@ == stored.filename@,
{
    let data = stored.data.clone();
    assert(data@ =~= stored.data@);
    Reply {
        content: None,
        embed: None,
        attachment: Some(Attachment { data, filename: stored.filename.clone() }),
    }
}

/// The text that the `send_embed` command shows under the title.
pub open spec fn lorem_ipsum() -> Seq<char> {
    LOREM@
}

/// The body of the `send_embed` embed.
pub const LOREM: &'static str = "Lorem ipsum dolor sit amet, consectetur adipiscing elit. Aliquam malesuada dictum porttitor. Donec facilisis est a lorem dapibus convallis. Suspendisse commodo, est eget ornare ultricies, mi nisl ornare nisl, quis suscipit augue quam non dolor. Maecenas interdum mi et gravida egestas.\n
Sed libero nisi, gravida ac dictum at, lacinia in tortor. Phasellus erat tellus, egestas non arcu at, iaculis facilisis erat. Nullam interdum erat ut neque rutrum consectetur. Aenean quis pretium sapien. Pellentesque habitant morbi tristique senectus et netus et malesuada fames ac turpis egestas. Vestibulum in consequat ex, non ultricies odio. Suspendisse iaculis commodo orci non cursus. In at risus tempor, congue mauris eu, volutpat odio. Curabitur hendrerit ac libero et iaculis. Mauris vel purus semper, iaculis dolor vel, cursus tortor. In volutpat eros eleifend, congue dui nec, mattis velit.\n
Morbi aliquam mollis ante, mollis porttitor leo placerat eu. Nullam neque neque, dictum vitae tincidunt bibendum, aliquam vitae leo. Phasellus ut dolor cursus ante ornare varius eu sed leo. Fusce quis dignissim ligula. Praesent id maximus nulla. Ut iaculis ultricies nisl, ac tincidunt arcu consectetur vitae. Nunc posuere egestas enim, sit amet tempor ex auctor vel. Etiam erat ipsum, tristique at suscipit non, blandit et nisi.\n
Vestibulum semper neque eget ornare pellentesque. In risus nisi, hendrerit eu rutrum vel, sagittis sit amet ante. Duis rutrum enim non ante aliquet, id suscipit massa fermentum. Maecenas id ullamcorper nulla. Sed ut eleifend justo. Fusce ut cursus neque. Suspendisse viverra odio nisi, et laoreet felis fermentum in.\n
Donec vel libero sed ligula condimentum ultrices. Cras faucibus condimentum quam, nec placerat ipsum rutrum molestie. Pellentesque habitant morbi tristique senectus et netus et malesuada fames ac turpis egestas. Morbi et tincidunt lorem, ac imperdiet massa. Phasellus dolor sem, pulvinar et quam vel, bibendum bibendum elit. Proin nunc lacus, sodales sit amet vestibulum sed, elementum aliquet nisi. Cras venenatis erat magna, at ultrices libero faucibus nec. Curabitur ligula mauris, efficitur et ante vitae, finibus semper ligula. Mauris non nisl felis. Ut pulvinar nisl sit amet lectus interdum posuere. Aliquam erat volutpat. Etiam pretium sagittis nunc a viverra. Nullam pharetra porttitor lacus, eget interdum urna ultrices in.\n
Donec sagittis gravida neque, sit amet elementum turpis laoreet sed. Suspendisse neque dolor, maximus imperdiet libero sed, euismod luctus elit. Proin vel nisl vel sem eleifend condimentum at nec tortor. Cras ut pellentesque erat. Suspendisse eros neque, consectetur in ex non, ullamcorper commodo orci. Donec ac nisi at sapien tempus aliquam vitae eget purus. Vestibulum viverra orci at justo finibus posuere.
";

/// The reply of the `send_embed` command: a blue embed with the given title and
/// the fixed lorem-ipsum body.
pub fn send_embed(title: String) -> (reply: Reply)
    ensures
        reply.content is None,
        reply.attachment is None,
        reply.embed matches Some(e) && opt_text(e.title) == Some(title@)
            && e.description@ == lorem_ipsum() && e.colour == EmbedColour::Blue,
        reply.embed matches Some(e) && e.description@ == LOREM@,
{
    Reply {
        content: None,
        embed: Some(Embed { title: Some(title), description: LOREM.to_string(), colour: EmbedColour::Blue }),
        attachment: None,
    }
}

/// A chat user as the `age` command sees them: the id and the user name.
#[derive(Debug)]
pub struct UserProfile {
    pub id: u64,
    pub name: String,
}

/// Milliseconds from 1970 to 2015-01-01, the epoch of Discord ids.
pub const DISCORD_EPOCH_MS: u64 = 1_420_070_400_000;

/// The latest creation time that an id can encode: `(u64::MAX >> 22) + DISCORD_EPOCH_MS`.
pub const LATEST_CREATION_MS: i64 = 5_818_116_911_103;

/// When the object with this id was created, in milliseconds since 1970: the id's
/// top 42 bits count milliseconds since the Discord epoch.
pub open spec fn creation_ms(id: u64) -> int {
    id as int / 0x40_0000 + DISCORD_EPOCH_MS as int
}

/// The creation time that an id encodes, in milliseconds since 1970.
pub fn creation_millis(id: u64) -> (ms: i64)
    ensures
        ms == creation_ms(id),
        ms == id as int / 0x40_0000 + 1_420_070_400_000,
        DISCORD_EPOCH_MS <= ms <= LATEST_CREATION_MS,
{
    assert(id >> 22u64 == id / 0x40_0000) by (bit_vector);
    assert(id / 0x40_0000 <= 0x3FF_FFFF_FFFF) by (bit_vector);
    let since_epoch: u64 = id >> 22u64;
    (since_epoch + DISCORD_EPOCH_MS) as i64
}

/// Ids are ordered as their creation times: a larger id never encodes an earlier time.
pub proof fn lemma_creation_time_monotone(id1: u64, id2: u64)
    requires
        id1 <= id2,
    ensures
        creation_ms(id1) <= creation_ms(id2),
{
    assert(id1 as int / 0x40_0000 <= id2 as int / 0x40_0000) by (nonlinear_arith)
        requires
            id1 <= id2,
    ;
}

/// The RFC 3339 text, to the millisecond in UTC, of this many milliseconds since 1970,
/// as the chat library prints a timestamp.
pub uninterp spec fn rfc3339_text(ms: i64) -> Seq<char>;

/// `Timestamp::from_millis(ms)` of the chat library, printed with `to_string`. The
/// library's source notes that the conversion cannot fail for the creation times of
/// ids, the range that `requires` admits.
#[verifier::external_body]
fn timestamp_text(ms: i64) -> (text: String)
    requires
        0 <= ms <= LATEST_CREATION_MS,
    ensures
        text@ == rfc3339_text(ms),
{
    serenity::model::Timestamp::from_millis(ms).expect("creation times are in range").to_string()
}

/// The sentence of the `age` command about a user.
pub open spec fn age_sentence(user: UserProfile) -> Seq<char> {
    account_sentence(user.name@, rfc3339_text(creation_ms(user.id) as i64))
}

/// "<name>'s account was created at <time>".
pub open spec fn account_sentence(name: Seq<char>, created_at: Seq<char>) -> Seq<char> {
    name + "'s account was created at "@ + created_at
}

/// The sentence of the `age` command, given the user's name and the printed time
/// their account was created.
pub fn account_created_sentence(name: &String, created_at: &String) -> (text: String)
    ensures
        text@ == account_sentence(name@, created_at@),
        text@ == name@ + "'s account was created at "@ + created_at@,
{
    let mut text = name.clone();
    text.append("'s account was created at ");
    text.append(created_at.as_str());
    text
}

/// The `age` sentence names the user in full: it is the user's whole name, then
/// "'s account was created at ", then the printed time their id encodes, which is
/// `id / 2^22` milliseconds after 2015-01-01.
pub proof fn lemma_age_sentence_names_user_in_full(user: UserProfile)
    ensures
        age_sentence(user) == user.name@ + "'s account was created at "@ + rfc3339_text(
            (user.id as int / 0x40_0000 + 1_420_070_400_000) as i64,
        ),
        age_sentence(user).subrange(0, user.name@.len() as int) == user.name@,
{
    let t = age_sentence(user);
    assert(t.subrange(0, user.name@.len() as int) =~= user.name@);
}

/// The reply of the `age` command: when the selected user's account was created,
/// or, with no user selected, the author's.
pub fn age(user: Option<UserProfile>, author: UserProfile) -> (text: String)
    ensures
        text@ == age_sentence(match user {
            Some(u) => u,
            None => author,
        }),
        ({
            let u = match user {
                Some(u) => u,
                None => author,
            };
            text@ == u.name@ + "'s account was created at "@ + rfc3339_text(
                (u.id as int / 0x40_0000 + 1_420_070_400_000) as i64,
            )
        }),
{
    let chosen = match user {
        Some(u) => u,
        None => author,
    };
    let ms = creation_millis(chosen.id);
    let when = timestamp_text(ms);
    account_created_sentence(&chosen.name, &when)
}

/// The placeholder the `gpt` command answers with at once, before the model replies.
pub const THINKING: &'static str = "🤔";

/// What the `gpt` command shows when the model's reply has no text.
pub const SHRUG: &'static str = "¯\\_(ツ)_/¯";

/// The most characters of the model's reply that the `gpt` command shows.
pub const MESSAGE_SIZE_LIMIT: usize = 4096;

/// A chat-completion request: the model and the user's one message.
#[derive(Debug)]
pub struct ChatRequest {
    pub model: String,
    pub user_message: String,
}

/// `GPT3_5_TURBO` of the OpenAI client crate, as an owned string: the name of the
/// model that the `gpt` command asks, "gpt-3.5-turbo" in the crate's source.
#[verifier::external_body]
fn gpt_model() -> (model: String)
    ensures
        model@ == "gpt-3.5-turbo"@,
{
    openai_api_rs::v1::common::GPT3_5_TURBO.to_string()
}

/// The request that the `gpt` command sends: the prompt, as the user's message, to
/// gpt-3.5-turbo.
pub fn gpt_request(prompt: &String) -> (req: ChatRequest)
    ensures
        req.model@ == "gpt-3.5-turbo"@,
        req.user_message@ == prompt@,
{
    ChatRequest { model: gpt_model(), user_message: prompt.clone() }
}

/// The first `limit` characters of `s`, or all of `s` when it is shorter.
pub open spec fn truncated(s: Seq<char>, limit: nat) -> Seq<char> {
    if s.len() <= limit {
        s
    } else {
        s.take(limit as int)
    }
}

/// The text that the `gpt` command shows for the first choice of the model's reply:
/// its content, or a shrug when it has none, cut to `MESSAGE_SIZE_LIMIT` characters.
pub open spec fn answer_text(content: Option<String>) -> Seq<char> {
    truncated(
        match content {
            Some(c) => c@,
            None => SHRUG@,
        },
        MESSAGE_SIZE_LIMIT as nat,
    )
}

/// The `gpt` command shows the start of the answer (or of the shrug), as much of it
/// as fits: exactly `min(len, MESSAGE_SIZE_LIMIT)` characters, each the answer's own
/// character at that place. An answer of at most 4096 characters is shown whole.
pub proof fn lemma_answer_is_bounded_prefix(content: Option<String>)
    ensures
        answer_text(content).len() <= MESSAGE_SIZE_LIMIT,
        answer_text(content).is_prefix_of(match content {
            Some(c) => c@,
            None => SHRUG@,
        }),
        ({
            let full = match content {
                Some(c) => c@,
                None => SHRUG@,
            };
            &&& answer_text(content).len() == if full.len() <= 4096 { full.len() } else { 4096 }
            &&& forall|j: int| 0 <= j < answer_text(content).len() ==> #[trigger] answer_text(content)[j] == full[j]
            &&& full.len() <= 4096 ==> answer_text(content) == full
        }),
{
    let full = match content {
        Some(c) => c@,
        None => SHRUG@,
    };
    assert(answer_text(content) =~= full.take(answer_text(content).len() as int));
}

/// The text above the answer: the prompt, quoted.
pub open spec fn quoted_prompt(prompt: Seq<char>) -> Seq<char> {
    ">>> "@ + prompt
}

/// Cuts a text to its first `MESSAGE_SIZE_LIMIT` characters.
fn truncate_answer(full: String) -> (text: String)
    ensures
        text@ == truncated(full@, MESSAGE_SIZE_LIMIT as nat),
        text@.len() == if full@.len() <= 4096 { full@.len() } else { 4096 },
        forall|j: int| 0 <= j < text@.len() ==> #[trigger] text@[j] == full@[j],
{
    let n = full.as_str().unicode_len();
    if n <= MESSAGE_SIZE_LIMIT {
        full
    } else {
        let cut = full.as_str().substring_char(0, MESSAGE_SIZE_LIMIT);
        let text = cut.to_string();
        assert(cut@ =~= full@.take(MESSAGE_SIZE_LIMIT as int));
        text
    }
}

/// The edit that replaces the placeholder of the `gpt` command once the model has
/// answered, given the text content of each choice of the answer: the quoted prompt,
/// above a red embed with the first choice's text. An answer without choices has no
/// first choice to index, a panic that `requires` leaves out.
pub fn gpt(prompt: &String, choice_contents: &Vec<Option<String>>) -> (reply: Reply)
    requires
        choice_contents.len() > 0,
    ensures
        opt_text(reply.content) == Some(quoted_prompt(prompt@)),
        reply.attachment is None,
        reply.embed matches Some(e) && e.title is None && e.colour == EmbedColour::Red
            && e.description@ == answer_text(choice_contents[0]),
        reply.embed matches Some(e) && e.description@.len() <= MESSAGE_SIZE_LIMIT,
        reply.content matches Some(c) && c@ == ">>> "@ + prompt@,
        reply.embed matches Some(e) && ({
            let full = match choice_contents[0] {
                Some(c) => c@,
                None => SHRUG@,
            };
            &&& e.description@.len() == if full.len() <= 4096 { full.len() } else { 4096 }
            &&& forall|j: int| 0 <= j < e.description@.len() ==> #[trigger] e.description@[j] == full[j]
        }),
{
    let full = match &choice_contents[0] {
        Some(c) => c.clone(),
        None => SHRUG.to_string(),
    };
    let description = truncate_answer(full);
    let mut content = ">>> ".to_string();
    content.append(prompt.as_str());
    Reply {
        content: Some(content),
        embed: Some(Embed { title: None, description, colour: EmbedColour::Red }),
        attachment: None,
    }
}

/// Where the `paintdot` command writes its picture before sending it.
pub const PAINTDOT_OUTPUT_PATH: &'static str = "./img/output.png";

/// The name under which the `paintdot` picture is sent.
pub open spec fn paintdot_filename() -> Seq<char> {
    "output.png"@
}

/// The reply of the `paintdot` command, given the bytes of the picture file it wrote:
/// those bytes as "output.png", nothing else.
pub fn paintdot_reply(png: Vec<u8>) -> (reply: Reply)
    ensures
        reply.content is None,
        reply.embed is None,
        reply.attachment matches Some(att) && att.data@ == png@ && att.filename@ == paintdot_filename(),
        reply.attachment matches Some(att) && att.filename@ == "output.png"@,
{
    Reply {
        content: None,
        embed: None,
        attachment: Some(Attachment { data: png, filename: "output.png".to_string() }),
    }
}

} // verus!
