//! The text of the messages the bot posts: tips, errors and scheduler summaries.

use vstd::prelude::*;
use vstd::string::*;

verus! {

/// The colour of an embed, by what it reports.
#[derive(Clone, Copy, Debug, PartialEq, Eq, Structural)]
pub enum Tone {
    /// A tip or a piece of information.
    Info,
    /// A list of tips.
    Listing,
    /// A completed change.
    Success,
    /// A request that could not be served as asked.
    Warning,
    /// A request that named something unknown.
    Unknown,
    /// A failure.
    Error,
}

impl Tone {
    /// The red, green and blue parts of the colour.
    pub open spec fn rgb_spec(&self) -> (u8, u8, u8) {
        match self {
            Tone::Info => (102, 255, 255),
            Tone::Listing => (0, 200, 55),
            Tone::Success => (102, 255, 51),
            Tone::Warning => (255, 204, 0),
            Tone::Unknown => (255, 102, 51),
            Tone::Error => (255, 0, 0),
        }
    }

    pub fn rgb(&self) -> (r: (u8, u8, u8))
        ensures
            r == self.rgb_spec(),
    {
        match self {
            Tone::Info => (102, 255, 255),
            Tone::Listing => (0, 200, 55),
            Tone::Success => (102, 255, 51),
            Tone::Warning => (255, 204, 0),
            Tone::Unknown => (255, 102, 51),
            Tone::Error => (255, 0, 0),
        }
    }
}

/// The parts of a rich message ("embed"); the transport adds the time stamp.
#[derive(Clone, Debug, PartialEq, Eq)]
pub struct EmbedText {
    pub title: String,
    pub description: String,
    pub footer: Option<String>,
    pub author: Option<String>,
    pub tone: Tone,
}

/// The character of decimal digit `d`.
pub open spec fn digit_char(d: nat) -> char {
    ('0' as int + d) as char
}

/// `n` written in decimal, without leading zeros.
pub open spec fn decimal(n: nat) -> Seq<char>
    decreases n,
{
    if n < 10 {
        seq![digit_char(n)]
    } else {
        decimal(n / 10) + seq![digit_char(n % 10)]
    }
}

/// `n` written in decimal with at least two digits.
pub open spec fn two_digits(n: nat) -> Seq<char> {
    if n < 10 {
        seq!['0'] + decimal(n)
    } else {
        decimal(n)
    }
}

/// How a chat client writes a reference to channel `id`, as serenity's
/// `Mention::Channel` displays it.
pub open spec fn channel_mention(id: nat) -> Seq<char> {
    "<#"@ + decimal(id) + ">"@
}

fn digit_str(d: u64) -> (r: &'static str)
    requires
        d < 10,
    ensures
        r@ == seq![digit_char(d as nat)],
{
    proof {
        reveal_strlit("0");
        reveal_strlit("1");
        reveal_strlit("2");
        reveal_strlit("3");
        reveal_strlit("4");
        reveal_strlit("5");
        reveal_strlit("6");
        reveal_strlit("7");
        reveal_strlit("8");
        reveal_strlit("9");
    }
    let r = if d == 0 {
        "0"
    } else if d == 1 {
        "1"
    } else if d == 2 {
        "2"
    } else if d == 3 {
        "3"
    } else if d == 4 {
        "4"
    } else if d == 5 {
        "5"
    } else if d == 6 {
        "6"
    } else if d == 7 {
        "7"
    } else if d == 8 {
        "8"
    } else {
        "9"
    };
    assert(r@ =~= seq![digit_char(d as nat)]);
    r
}

/// Appends `n` in decimal to `out`.
pub(crate) fn push_decimal(out: &mut String, n: u64)
    ensures
        final(out)@ == old(out)@ + decimal(n as nat),
    decreases n,
{
    if n >= 10 {
        push_decimal(out, n / 10);
    }
    out.append(digit_str(n % 10));
    proof {
        if n >= 10 {
            assert(final(out)@ =~= old(out)@ + decimal(n as nat));
        }
    }
}

/// `n` in decimal.
pub fn decimal_string(n: u64) -> (r: String)
    ensures
        r@ == decimal(n as nat),
{
    let mut out = String::new();
    push_decimal(&mut out, n);
    assert(out@ =~= decimal(n as nat));
    out
}

/// Appends `n` in decimal with at least two digits to `out`.
pub(crate) fn push_two_digits(out: &mut String, n: u64)
    ensures
        final(out)@ == old(out)@ + two_digits(n as nat),
{
    if n < 10 {
        out.append("0");
        proof {
            reveal_strlit("0");
        }
    }
    push_decimal(out, n);
    assert(final(out)@ =~= old(out)@ + two_digits(n as nat));
}

/// The value of an optional text, the empty text when absent.
pub open spec fn text_or_empty(t: Option<String>) -> Seq<char> {
    match t {
        Some(s) => s@,
        None => Seq::empty(),
    }
}

/// A copy of a text.
pub(crate) fn copy_text(s: &String) -> (r: String)
    ensures
        r@ == s@,
{
    s.clone()
}

fn take_or_empty(t: Option<String>) -> (r: String)
    ensures
        r@ == text_or_empty(t),
{
    match t {
        Some(s) => s,
        None => String::new(),
    }
}

/// One line of a tip list: `*id* - **title**`, then `    #tags#` when there are tags.
pub open spec fn minimized_tip_text(id: nat, title: Seq<char>, tags: Seq<char>) -> Seq<char> {
    let head = "*"@ + decimal(id) + "* - **"@ + title + "**"@;
    if tags.len() == 0 {
        head
    } else {
        head + "    #"@ + tags + "#"@
    }
}

/// The line that shows a tip in a list.
pub fn display_minimized_tip(id: u32, title: String, tags_string: Option<String>) -> (r: String)
    ensures
        r@ == minimized_tip_text(id as nat, title@, text_or_empty(tags_string)),
{
    let tags = take_or_empty(tags_string);
    let mut out = String::from_str("*");
    push_decimal(&mut out, id as u64);
    out.append("* - **");
    out.append(title.as_str());
    out.append("**");
    if tags.as_str().unicode_len() != 0 {
        out.append("    #");
        out.append(tags.as_str());
        out.append("#");
    }
    out
}

/// The footer that lists a tip's tags, absent when it has none.
pub open spec fn tags_footer(tags: Seq<char>) -> Option<Seq<char>> {
    if tags.len() == 0 {
        None
    } else {
        Some("#: "@ + tags)
    }
}

/// The view of an optional text.
pub open spec fn opt_view(t: Option<String>) -> Option<Seq<char>> {
    match t {
        Some(s) => Some(s@),
        None => None,
    }
}

/// `e` shows a tip: its title, its content, and its tags in the footer.
pub open spec fn is_full_tip_embed(
    e: EmbedText,
    title: Seq<char>,
    content: Seq<char>,
    tags: Seq<char>,
) -> bool {
    &&& e.title@ == title
    &&& e.description@ == content
    &&& opt_view(e.footer) == tags_footer(tags)
    &&& e.author is None
    &&& e.tone == Tone::Info
}

/// The embed that shows a whole tip.
pub fn display_full_tip_in_embed(title: String, content: String, tags_opt: Option<String>) -> (r:
    EmbedText)
    ensures
        is_full_tip_embed(r, title@, content@, text_or_empty(tags_opt)),
{
    let tags = take_or_empty(tags_opt);
    let footer = if tags.as_str().unicode_len() != 0 {
        let mut f = String::from_str("#: ");
        f.append(tags.as_str());
        Some(f)
    } else {
        None
    };
    EmbedText { title, description: content, footer, author: None, tone: Tone::Info }
}

/// The title of every error embed.
pub open spec fn error_title() -> Seq<char> {
    "Oups.. Something went wrong in the process :("@
}

/// The description of an error embed: where it came from and what it says.
pub open spec fn error_description(source: Seq<char>, err: Seq<char>) -> Seq<char> {
    "From "@ + source + ", error:\n"@ + err
}

/// `e` reports error `err` raised in `source`.
pub open spec fn is_error_embed(e: EmbedText, source: Seq<char>, err: Seq<char>) -> bool {
    &&& e.title@ == error_title()
    &&& e.description@ == error_description(source, err)
    &&& e.footer is None
    &&& e.author is None
    &&& e.tone == Tone::Error
}

/// The embed that reports a failure.
pub fn make_error_embed(source: &str, err: String) -> (r: EmbedText)
    ensures
        is_error_embed(r, source@, err@),
{
    let mut description = String::from_str("From ");
    description.append(source);
    description.append(", error:\n");
    description.append(err.as_str());
    EmbedText {
        title: String::from_str("Oups.. Something went wrong in the process :("),
        description,
        footer: None,
        author: None,
        tone: Tone::Error,
    }
}

/// The embed that carries a tip list.
pub fn embed_from_param(title: String, content: String) -> (r: EmbedText)
    ensures
        r.title@ == title@,
        r.description@ == content@,
        r.footer is None,
        r.author is None,
        r.tone == Tone::Listing,
{
    EmbedText { title, description: content, footer: None, author: None, tone: Tone::Listing }
}

/// Two texts are equal, character for character.
pub fn same_text(a: &str, b: &str) -> (r: bool)
    ensures
        r == (a@ == b@),
{
    let n = a.unicode_len();
    if n != b.unicode_len() {
        return false;
    }
    let mut i: usize = 0;
    while i < n
        invariant
            n == a@.len() == b@.len(),
            i <= n,
            forall|k: int| 0 <= k < i ==> a@[k] == b@[k],
        decreases n - i,
    {
        if a.get_char(i) != b.get_char(i) {
            return false;
        }
        i = i + 1;
    }
    assert(a@ =~= b@);
    true
}

} // verus!
