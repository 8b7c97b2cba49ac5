//! Decisions of the tip commands: listing, filtering by tags, updating and deleting.

use vstd::prelude::*;
use vstd::string::*;
use crate::commands::{CommandOption, OptionValue, sentence, missing_parameter_text};
use crate::text::{
    EmbedText, Tone, copy_text, display_minimized_tip, embed_from_param, minimized_tip_text,
    opt_view, push_decimal, decimal, same_text,
};

verus! {

/// A tip as shown in a list.
pub struct ListTip {
    pub id: u32,
    pub title: String,
    pub tags: String,
}

/// The body of a tip list: one line per tip, each ended by a newline.
pub open spec fn tip_list_text(tips: Seq<ListTip>) -> Seq<char>
    decreases tips.len(),
{
    if tips.len() == 0 {
        Seq::empty()
    } else {
        tip_list_text(tips.drop_last()) + minimized_tip_text(
            tips.last().id as nat,
            tips.last().title@,
            tips.last().tags@,
        ) + "\n"@
    }
}

/// The body of a tip list.
pub fn tip_list(tips: &[ListTip]) -> (r: String)
    ensures
        r@ == tip_list_text(tips@),
{
    let mut out = String::new();
    let mut k: usize = 0;
    assert(tips@.take(0) =~= Seq::<ListTip>::empty());
    while k < tips.len()
        invariant
            k <= tips@.len(),
            out@ == tip_list_text(tips@.take(k as int)),
        decreases tips@.len() - k,
    {
        let t = &tips[k];
        let line = display_minimized_tip(t.id, copy_text(&t.title), Some(copy_text(&t.tags)));
        out.append(line.as_str());
        out.append("\n");
        assert(tips@.take(k + 1).drop_last() =~= tips@.take(k as int));
        k = k + 1;
    }
    assert(tips@.take(k as int) =~= tips@);
    out
}

/// The pieces of `s` between commas, as splitting on `,` gives them.
pub open spec fn split_commas(s: Seq<char>) -> Seq<Seq<char>>
    decreases s.len(),
{
    if s.len() == 0 {
        seq![Seq::empty()]
    } else {
        let p = split_commas(s.drop_last());
        if s.last() == ',' {
            p.push(Seq::empty())
        } else {
            p.update(p.len() - 1, p.last().push(s.last()))
        }
    }
}

/// The pattern that matches a tag list holding `tag`.
pub open spec fn like_pattern(tag: Seq<char>) -> Seq<char> {
    "%"@ + tag + "%"@
}

/// One pattern per comma-separated tag of `tags`, each matching any tag list
/// that holds it.
pub fn tag_like_patterns(tags: &str) -> (r: Vec<String>)
    ensures
        r@.len() == split_commas(tags@).len(),
        forall|i: int|
            0 <= i < r@.len() ==> (#[trigger] r@[i])@ == like_pattern(split_commas(tags@)[i]),
{
    let n = tags.unicode_len();
    let mut done: Vec<String> = Vec::new();
    let mut cur = String::new();
    let mut k: usize = 0;
    assert(tags@.take(0) =~= Seq::<char>::empty());
    assert(cur@ =~= Seq::<char>::empty());
    while k < n
        invariant
            n == tags@.len(),
            k <= n,
            split_commas(tags@.take(k as int)).len() == done@.len() + 1,
            forall|i: int|
                0 <= i < done@.len() ==> (#[trigger] done@[i])@ == split_commas(
                    tags@.take(k as int),
                )[i],
            cur@ == split_commas(tags@.take(k as int)).last(),
        decreases n - k,
    {
        let ghost before = tags@.take(k as int);
        assert(tags@.take(k + 1).drop_last() =~= before);
        let c = tags.get_char(k);
        assert(tags@.take(k + 1).last() == c);
        if c == ',' {
            done.push(cur);
            cur = String::new();
            assert(cur@ =~= Seq::<char>::empty());
        } else {
            let piece = tags.substring_char(k, k + 1);
            assert(piece@ =~= seq![c]);
            cur.append(piece);
            assert(cur@ =~= split_commas(before).last().push(c));
        }
        k = k + 1;
    }
    assert(tags@.take(n as int) =~= tags@);
    done.push(cur);
    let mut out: Vec<String> = Vec::new();
    let mut j: usize = 0;
    while j < done.len()
        invariant
            j <= done@.len(),
            done@.len() == split_commas(tags@).len(),
            forall|i: int| 0 <= i < done@.len() ==> (#[trigger] done@[i])@ == split_commas(tags@)[i],
            out@.len() == j,
            forall|i: int|
                0 <= i < j ==> (#[trigger] out@[i])@ == like_pattern(split_commas(tags@)[i]),
        decreases done@.len() - j,
    {
        out.push(sentence("%", done[j].as_str(), "%"));
        j = j + 1;
    }
    out
}

/// Relies on std's `str::trim`: the text without leading and trailing
/// whitespace, which depends on the text alone.
pub uninterp spec fn trimmed(s: Seq<char>) -> Seq<char>;

/// Relies on std's `str::trim`: `s` without leading and trailing whitespace.
#[verifier::external_body]
fn trim_text(s: &str) -> (r: String)
    ensures
        r@ == trimmed(s@),
{
    s.trim().to_string()
}

/// The tags a list is filtered by, and the patterns that select its tips.
pub struct TagFilter {
    pub tags: String,
    pub patterns: Vec<String>,
}

/// The filter a list command asks for: none when no tags were given, else the
/// trimmed tags and one pattern per tag.
pub fn list_filter(tags_option: &str) -> (r: Option<TagFilter>)
    ensures
        tags_option@.len() == 0 <==> r is None,
        r is Some ==> {
            let f = r->Some_0;
            &&& f.tags@ == trimmed(tags_option@)
            &&& f.patterns@.len() == split_commas(trimmed(tags_option@)).len()
            &&& forall|i: int|
                0 <= i < f.patterns@.len() ==> (#[trigger] f.patterns@[i])@ == like_pattern(
                    split_commas(trimmed(tags_option@))[i],
                )
        },
{
    if tags_option.unicode_len() == 0 {
        return None;
    }
    let tags = trim_text(tags_option);
    let patterns = tag_like_patterns(tags.as_str());
    Some(TagFilter { tags, patterns })
}

/// The title of a tip list.
pub open spec fn list_title_text(filter_tags: Option<Seq<char>>) -> Seq<char> {
    match filter_tags {
        Some(t) => "List of created  `TIPS`  with tags  `"@ + t + "`"@,
        None => "Here is the list of created  `TIPS`"@,
    }
}

/// The reply that lists tips, filtered by `filter` when there is one.
pub fn list_reply(filter: &Option<TagFilter>, tips: &[ListTip]) -> (r: EmbedText)
    ensures
        r.title@ == list_title_text(
            match filter {
                Some(f) => Some(f.tags@),
                None => None::<Seq<char>>,
            },
        ),
        r.description@ == tip_list_text(tips@),
        r.footer is None,
        r.author is None,
        r.tone == Tone::Listing,
{
    let title = match filter {
        Some(f) => sentence("List of created  `TIPS`  with tags  `", f.tags.as_str(), "`"),
        None => String::from_str("Here is the list of created  `TIPS`"),
    };
    embed_from_param(title, tip_list(tips))
}

/// The reply when the tips could not be fetched for a list.
pub fn list_failure_reply(err: String) -> (r: EmbedText)
    ensures
        r.title@ == "Failed to get the list of tips title."@,
        r.description@ == "Error:\n"@ + err@,
        r.footer is None,
        r.author is None,
        r.tone == Tone::Listing,
{
    let mut description = String::from_str("Error:\n");
    description.append(err.as_str());
    embed_from_param(String::from_str("Failed to get the list of tips title."), description)
}

/// The error for an integer option that is negative.
pub open spec fn not_natural_text(name: Seq<char>) -> Seq<char> {
    "Incorrect type for the parameter "@ + name + ". It must be an integer >= 0"@
}

/// What reading the integer option at `index` gives: its value, or the error.
pub open spec fn required_integer_of(options: Seq<CommandOption>, index: int, name: Seq<char>) -> Result<
    u64,
    Seq<char>,
> {
    if index >= options.len() {
        Err(missing_parameter_text(name))
    } else {
        match options[index].value {
            None => Err(missing_parameter_text(name)),
            Some(OptionValue::Integer(v)) => if v >= 0 {
                Ok(v as u64)
            } else {
                Err(not_natural_text(name))
            },
            Some(_) => Err("Incorrect type for the parameter "@ + name + "."@),
        }
    }
}

/// The non-negative integer of the required option at `index`.
pub fn get_required_integer_param_from_options(
    options: &[CommandOption],
    index: usize,
    name: &str,
) -> (r: Result<u64, String>)
    ensures
        match r {
            Ok(v) => required_integer_of(options@, index as int, name@) == Ok::<u64, Seq<char>>(v),
            Err(e) => required_integer_of(options@, index as int, name@) == Err::<u64, Seq<char>>(
                e@,
            ),
        },
{
    if index >= options.len() {
        return Err(sentence("Missing parameter ", name, "."));
    }
    match &options[index].value {
        None => Err(sentence("Missing parameter ", name, ".")),
        Some(OptionValue::Integer(v)) => if *v >= 0 {
            Ok(*v as u64)
        } else {
            Err(sentence("Incorrect type for the parameter ", name, ". It must be an integer >= 0"))
        },
        Some(_) => Err(sentence("Incorrect type for the parameter ", name, ".")),
    }
}

/// The tip to delete: the requested id when its confirmation repeats it.
pub fn deletion_target(id: u64, confirm_id: u64) -> (r: Option<u64>)
    ensures
        r == if id == confirm_id {
            Some(id)
        } else {
            None::<u64>
        },
{
    if id == confirm_id {
        Some(id)
    } else {
        None
    }
}

/// The reply when the confirmation does not repeat the id.
pub fn confirmation_mismatch_reply() -> (r: EmbedText)
    ensures
        r.title@ == "Tip id and confirmation are different !"@,
        r.description@
            == "Please confirm the id of the tip you want to delete.\nIf you think it's an error contact the administrator of the server."@,
        r.footer is None,
        r.author is None,
        r.tone == Tone::Warning,
{
    EmbedText {
        title: String::from_str("Tip id and confirmation are different !"),
        description: String::from_str(
            "Please confirm the id of the tip you want to delete.\nIf you think it's an error contact the administrator of the server.",
        ),
        footer: None,
        author: None,
        tone: Tone::Warning,
    }
}

/// What the user is told about an id that names no tip.
pub open spec fn unknown_id_text() -> Seq<char> {
    "The id requested is not valid. If you think this is an error, please contact server administrator"@
}

/// The reply to a deletion that removed `affected_rows` rows: one row means
/// the tip is gone, anything else that the id named no tip.
pub fn deletion_reply(affected_rows: usize) -> (r: EmbedText)
    ensures
        affected_rows == 1 ==> r.title@ == "Tip deleted successfully :)"@ && r.description@
            == "Nothing to say so here is a smiley `◖ᵔᴥᵔ◗ ♪ ♫`"@ && r.tone == Tone::Success,
        affected_rows != 1 ==> r.title@ == "Tip id unknown"@ && r.description@ == unknown_id_text()
            && r.tone == Tone::Unknown,
        r.footer is None,
        r.author is None,
{
    if affected_rows == 1 {
        EmbedText {
            title: String::from_str("Tip deleted successfully :)"),
            description: String::from_str("Nothing to say so here is a smiley `◖ᵔᴥᵔ◗ ♪ ♫`"),
            footer: None,
            author: None,
            tone: Tone::Success,
        }
    } else {
        EmbedText {
            title: String::from_str("Tip id unknown"),
            description: String::from_str(
                "The id requested is not valid. If you think this is an error, please contact server administrator",
            ),
            footer: None,
            author: None,
            tone: Tone::Unknown,
        }
    }
}

/// The reply when a read names no tip.
pub fn unknown_tip_reply() -> (r: EmbedText)
    ensures
        r.title@ == "Tip id unknown"@,
        r.description@ == unknown_id_text(),
        r.footer is None,
        r.author is None,
        r.tone == Tone::Error,
{
    EmbedText {
        title: String::from_str("Tip id unknown"),
        description: String::from_str(
            "The id requested is not valid. If you think this is an error, please contact server administrator",
        ),
        footer: None,
        author: None,
        tone: Tone::Error,
    }
}

/// The fields of a tip that an update changes; an absent field is kept.
pub struct TipUpdate {
    pub title: Option<String>,
    pub content: Option<String>,
    pub tags: Option<String>,
}

/// The texts given so far for title, content and tags; empty when not given.
pub type TipTexts = (Seq<char>, Seq<char>, Seq<char>);


/// The texts after reading one more option of the update command: `title`,
/// `content` and `tags` take the text given; other options are ignored.
pub open spec fn with_tip_option(t: TipTexts, o: CommandOption) -> Result<TipTexts, Seq<char>> {
    if o.name@ == "tags"@ {
        match o.value {
            Some(OptionValue::Text(v)) => Ok((t.0, t.1, v@)),
            Some(_) => Err(
                "The parameter tags given has a bad format.\nExpected lowercase csv with no spaces around coma. like this : tag,tag2,tag3,..."@,
            ),
            None => Err(
                "The parameter tags is empty.\nExpected lowercase csv with no spaces around coma. like this : tag,tag2,tag3,..."@,
            ),
        }
    } else if o.name@ == "content"@ {
        match o.value {
            Some(OptionValue::Text(v)) => Ok((t.0, v@, t.2)),
            Some(_) => Err("The parameter content given has a bad format.\nExpected a string."@),
            None => Err("The parameter content is empty."@),
        }
    } else if o.name@ == "title"@ {
        match o.value {
            Some(OptionValue::Text(v)) => Ok((v@, t.1, t.2)),
            Some(_) => Err("The parameter title given has a bad format.\nExpected a string."@),
            None => Err("The parameter title is empty."@),
        }
    } else {
        Ok(t)
    }
}

/// The texts that the options of the update command give; the first bad
/// option gives the error.
pub open spec fn tip_texts_from_options(options: Seq<CommandOption>) -> Result<TipTexts, Seq<char>>
    decreases options.len(),
{
    if options.len() == 0 {
        Ok((Seq::empty(), Seq::empty(), Seq::empty()))
    } else {
        match tip_texts_from_options(options.drop_last()) {
            Ok(t) => with_tip_option(t, options.last()),
            Err(e) => Err(e),
        }
    }
}

/// A field of an update: absent when its text is empty.
pub open spec fn given(t: Seq<char>) -> Option<Seq<char>> {
    if t.len() == 0 {
        None
    } else {
        Some(t)
    }
}

fn text_option(
    value: &Option<OptionValue>,
    bad_format: &str,
    empty: &str,
) -> (r: Result<String, String>)
    ensures
        match r {
            Ok(v) => value is Some && value->Some_0 is Text && v@ == value->Some_0->Text_0@,
            Err(e) => (value is None && e@ == empty@) || (value is Some && !(value->Some_0 is Text)
                && e@ == bad_format@),
        },
{
    match value {
        Some(OptionValue::Text(v)) => Ok(copy_text(v)),
        Some(_) => Err(String::from_str(bad_format)),
        None => Err(String::from_str(empty)),
    }
}

fn nonempty(t: String) -> (r: Option<String>)
    ensures
        opt_view(r) == given(t@),
{
    if t.as_str().unicode_len() == 0 {
        None
    } else {
        Some(t)
    }
}

/// Reads the options of the update command into the fields to change.
pub fn tip_update_from_options(options: &[CommandOption]) -> (r: Result<TipUpdate, String>)
    ensures
        match r {
            Ok(u) => tip_texts_from_options(options@) is Ok && {
                let t = tip_texts_from_options(options@)->Ok_0;
                &&& opt_view(u.title) == given(t.0)
                &&& opt_view(u.content) == given(t.1)
                &&& opt_view(u.tags) == given(t.2)
            },
            Err(e) => tip_texts_from_options(options@) == Err::<TipTexts, Seq<char>>(e@),
        },
{
    let mut title = String::new();
    let mut content = String::new();
    let mut tags = String::new();
    let mut k: usize = 0;
    assert(options@.take(0) =~= Seq::<CommandOption>::empty());
    assert(title@ =~= Seq::<char>::empty());
    assert(content@ =~= Seq::<char>::empty());
    assert(tags@ =~= Seq::<char>::empty());
    while k < options.len()
        invariant
            k <= options@.len(),
            tip_texts_from_options(options@.take(k as int)) == Ok::<TipTexts, Seq<char>>(
                (title@, content@, tags@),
            ),
        decreases options@.len() - k,
    {
        assert(options@.take(k + 1).drop_last() =~= options@.take(k as int));
        assert(options@.take(k + 1).last() == options@[k as int]);
        let o = &options[k];
        let step = if same_name(o, "tags") {
            match text_option(
                &o.value,
                "The parameter tags given has a bad format.\nExpected lowercase csv with no spaces around coma. like this : tag,tag2,tag3,...",
                "The parameter tags is empty.\nExpected lowercase csv with no spaces around coma. like this : tag,tag2,tag3,...",
            ) {
                Ok(v) => {
                    tags = v;
                    Ok(())
                },
                Err(e) => Err(e),
            }
        } else if same_name(o, "content") {
            match text_option(
                &o.value,
                "The parameter content given has a bad format.\nExpected a string.",
                "The parameter content is empty.",
            ) {
                Ok(v) => {
                    content = v;
                    Ok(())
                },
                Err(e) => Err(e),
            }
        } else if same_name(o, "title") {
            match text_option(
                &o.value,
                "The parameter title given has a bad format.\nExpected a string.",
                "The parameter title is empty.",
            ) {
                Ok(v) => {
                    title = v;
                    Ok(())
                },
                Err(e) => Err(e),
            }
        } else {
            Ok(())
        };
        match step {
            Ok(()) => {},
            Err(e) => {
                proof {
                    lemma_tip_error_persists(options@, k as int + 1);
                }
                return Err(e);
            },
        }
        k = k + 1;
    }
    assert(options@.take(k as int) =~= options@);
    Ok(TipUpdate { title: nonempty(title), content: nonempty(content), tags: nonempty(tags) })
}

fn same_name(o: &CommandOption, name: &str) -> (r: bool)
    ensures
        r == (o.name@ == name@),
{
    same_text(o.name.as_str(), name)
}

proof fn lemma_tip_error_persists(options: Seq<CommandOption>, k: int)
    requires
        0 <= k <= options.len(),
        tip_texts_from_options(options.take(k)) is Err,
    ensures
        tip_texts_from_options(options) == tip_texts_from_options(options.take(k)),
    decreases options.len() - k,
{
    if k < options.len() {
        assert(options.take(k + 1).drop_last() =~= options.take(k));
        lemma_tip_error_persists(options, k + 1);
    } else {
        assert(options.take(k) =~= options);
    }
}

/// The conditions that select tips whose tags match one of `n` patterns,
/// bound as parameters `?1` to `?n`.
pub open spec fn like_clauses(n: nat) -> Seq<char>
    decreases n,
{
    if n == 0 {
        Seq::empty()
    } else {
        like_clauses((n - 1) as nat) + (if n == 1 {
            " WHERE tags LIKE ?"@
        } else {
            " OR tags LIKE ?"@
        }) + decimal(n)
    }
}

/// The query that lists tips, all of them when `n` is zero, else those whose
/// tags match one of `n` bound patterns.
pub open spec fn list_query_text(n: nat) -> Seq<char> {
    "SELECT id, title, IFNULL(tags, '') FROM tips"@ + like_clauses(n)
}

/// The query that lists tips for `patterns` bound patterns.
pub fn tip_list_query(patterns: usize) -> (r: String)
    requires
        patterns < u64::MAX,
    ensures
        r@ == list_query_text(patterns as nat),
{
    let mut out = String::from_str("SELECT id, title, IFNULL(tags, '') FROM tips");
    let mut k: usize = 0;
    while k < patterns
        invariant
            k <= patterns < u64::MAX,
            out@ == list_query_text(k as nat),
        decreases patterns - k,
    {
        if k == 0 {
            out.append(" WHERE tags LIKE ?");
        } else {
            out.append(" OR tags LIKE ?");
        }
        push_decimal(&mut out, (k + 1) as u64);
        k = k + 1;
    }
    out
}

} // verus!
