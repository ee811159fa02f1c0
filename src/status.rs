//! Reading fields out of the streamer's status document.
use vstd::prelude::*;

verus! {

#[verifier::external_type_specification]
#[verifier::external_body]
pub struct ExXmlError(treexml::Error);

/// Why a status document or one of its fields could not be read.
#[derive(Clone, Copy, Debug, PartialEq, Eq, Structural)]
pub enum StatusError {
    /// The body is not a well-formed XML document.
    Malformed,
    /// The document holds no root element.
    NoRoot,
    /// A numeric field does not hold a number.
    NotANumber,
}

/// The direct children of the root element of the XML document `body`, each
/// as its tag name and its text, in document order: `None` where the body is
/// not well formed, `Some(None)` where it holds no root element.
pub uninterp spec fn xml_root_children(body: Seq<char>) -> Option<
    Option<Seq<(Seq<char>, Option<Seq<char>>)>>,
>;

/// Relies on treexml::Document::parse, which reads the whole body and
/// reports malformed XML as an error (its one `panic!`, on a mismatched
/// closing tag, is unreachable: xml-rs refuses such a tag first). The
/// root's children are handed out by their `name` and `text` fields.
#[verifier::external_body]
fn parse_root_children(body: &str) -> (r: Result<Option<Vec<(String, Option<String>)>>, treexml::Error>)
    ensures
        match r {
            Err(_) => xml_root_children(body@) is None,
            Ok(None) => xml_root_children(body@) == Some(None::<Seq<(Seq<char>, Option<Seq<char>>)>>),
            Ok(Some(v)) => xml_root_children(body@) == Some(Some(v.deep_view())),
        },
{
    match treexml::Document::parse(body.as_bytes()) {
        Ok(doc) => Ok(doc.root.map(|root| root.children.into_iter().map(|c| (c.name, c.text)).collect())),
        Err(e) => Err(e),
    }
}

/// The text of an element; one without text reads as empty.
pub open spec fn text_or_empty(t: Option<Seq<char>>) -> Seq<char> {
    match t {
        Some(s) => s,
        None => Seq::empty(),
    }
}

/// The text of the first tag named `tag` in `tags`; empty if none is.
pub open spec fn first_text(tags: Seq<(Seq<char>, Option<Seq<char>>)>, tag: Seq<char>) -> Seq<char>
    decreases tags.len(),
{
    if tags.len() == 0 {
        Seq::empty()
    } else if tags[0].0 == tag {
        text_or_empty(tags[0].1)
    } else {
        first_text(tags.drop_first(), tag)
    }
}

/// What `status_field` yields for the document `body`.
pub open spec fn field_of(body: Seq<char>, tag: Seq<char>) -> Result<Seq<char>, StatusError> {
    match xml_root_children(body) {
        None => Err(StatusError::Malformed),
        Some(None) => Err(StatusError::NoRoot),
        Some(Some(tags)) => Ok(first_text(tags, tag)),
    }
}

/// The text of the first child of the root element whose tag name is `tag`.
pub fn first_child_text(tags: &Vec<(String, Option<String>)>, tag: &String) -> (r: String)
    ensures
        r@ == first_text(tags.deep_view(), tag@),
{
    let ghost all = tags.deep_view();
    assert(all.skip(0) =~= all);
    let mut i: usize = 0;
    while i < tags.len()
        invariant
            all == tags.deep_view(),
            all.len() == tags@.len(),
            i <= tags@.len(),
            first_text(all, tag@) == first_text(all.skip(i as int), tag@),
        decreases tags@.len() - i,
    {
        let ghost rest = all.skip(i as int);
        assert(rest[0] == tags@[i as int].deep_view());
        if tags[i].0 == *tag {
            return match &tags[i].1 {
                Some(t) => t.clone(),
                None => String::new(),
            };
        }
        assert(rest.drop_first() =~= all.skip(i + 1));
        i = i + 1;
    }
    String::new()
}

/// The text of the first child of the status document's root element whose
/// tag name is `tag`, or empty text where no child has that name.
pub fn status_field(body: &str, tag: &str) -> (r: Result<String, StatusError>)
    ensures
        match r {
            Ok(s) => field_of(body@, tag@) == Ok::<Seq<char>, StatusError>(s@),
            Err(e) => field_of(body@, tag@) == Err::<Seq<char>, StatusError>(e),
        },
{
    match parse_root_children(body) {
        Err(_) => Err(StatusError::Malformed),
        Ok(None) => Err(StatusError::NoRoot),
        Ok(Some(tags)) => Ok(first_child_text(&tags, &tag.to_owned())),
    }
}

pub open spec fn is_digit(c: char) -> bool {
    '0' <= c && c <= '9'
}

/// A non-empty run of ASCII decimal digits.
pub open spec fn all_digits(s: Seq<char>) -> bool {
    s.len() > 0 && forall|i: int| 0 <= i < s.len() ==> is_digit(#[trigger] s[i])
}

/// The value of a run of decimal digits, most significant first.
pub open spec fn digits_value(s: Seq<char>) -> int
    decreases s.len(),
{
    if s.len() == 0 {
        0
    } else {
        digits_value(s.drop_last()) * 10 + (s.last() as int - '0' as int)
    }
}

/// The integer that `s` writes in decimal: an optional `+` or `-` sign and
/// then digits, nothing else.
pub open spec fn decimal_value(s: Seq<char>) -> Option<int> {
    if s.len() > 0 && s[0] == '-' && all_digits(s.drop_first()) {
        Some(-digits_value(s.drop_first()))
    } else if s.len() > 0 && s[0] == '+' && all_digits(s.drop_first()) {
        Some(digits_value(s.drop_first()))
    } else if all_digits(s) {
        Some(digits_value(s))
    } else {
        None
    }
}

/// `s` writes in decimal an integer that fits in `i32`.
pub open spec fn is_i32_text(s: Seq<char>) -> bool {
    decimal_value(s) matches Some(v) && i32::MIN <= v <= i32::MAX
}

/// Relies on `<i32 as FromStr>::from_str`, which accepts exactly an optional
/// sign followed by decimal digits whose value is in range.
#[verifier::external_body]
fn parse_i32(text: &str) -> (r: Option<i32>)
    ensures
        r is Some <==> is_i32_text(text@),
        r matches Some(v) ==> decimal_value(text@) == Some(v as int),
{
    text.parse::<i32>().ok()
}

/// Reads the elapsed-seconds field.
pub fn parse_secs(text: &str) -> (r: Result<i32, StatusError>)
    ensures
        match r {
            Ok(v) => is_i32_text(text@) && decimal_value(text@) == Some(v as int),
            Err(e) => !is_i32_text(text@) && e == StatusError::NotANumber,
        },
{
    match parse_i32(text) {
        Some(v) => Ok(v),
        None => Err(StatusError::NotANumber),
    }
}

} // verus!
