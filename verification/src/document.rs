//! The XML side: a parsed document and the text of one of its fields. The
//! parsing and the XPath evaluation are `xpath_reader`'s and are only
//! stated; what counts as a field's text is decided here.
use vstd::prelude::*;
use vstd::string::StringExecFns;

verus! {

#[verifier::external_type_specification]
#[verifier::external_body]
pub struct ExReader<'d>(xpath_reader::Reader<'d>);

/// Selects the text nodes of the first `id` element below the root `info`.
pub const ID_QUERY: &'static str = "/info/id[1]/text()";

/// Selects the text nodes of the first `name` element below the root `info`.
pub const NAME_QUERY: &'static str = "/info/name[1]/text()";

/// Selects the text nodes of the first `version` element below the root
/// `info`.
pub const VERSION_QUERY: &'static str = "/info/version[1]/text()";

/// The queries that a descriptor is asked: one for each field.
pub open spec fn is_field_query(query: Seq<char>) -> bool {
    query == ID_QUERY@ || query == NAME_QUERY@ || query == VERSION_QUERY@
}

/// Whether `xml` is a document that `xpath_reader::Reader::from_str` accepts.
pub uninterp spec fn xml_parses(xml: Seq<char>) -> bool;

/// The text that a reader was opened on.
pub uninterp spec fn reader_source(reader: xpath_reader::Reader) -> Seq<char>;

/// The strings that `xpath_reader::Reader::read` gives for `query` on a
/// reader opened on `xml` with the default context; `None` where it gives an
/// error.
pub uninterp spec fn xpath_strings(xml: Seq<char>, query: Seq<char>) -> Option<Seq<Seq<char>>>;

pub open spec fn texts_view(texts: Seq<String>) -> Seq<Seq<char>> {
    texts.map_values(|s: String| s@)
}

/// The pieces one after another.
pub open spec fn joined(pieces: Seq<Seq<char>>) -> Seq<char>
    decreases pieces.len(),
{
    if pieces.len() == 0 {
        Seq::empty()
    } else {
        joined(pieces.drop_last()) + pieces.last()
    }
}

/// The text of the field that `query` selects in `xml`: all its text nodes
/// joined, so that text split by a comment, a CDATA section or a character
/// reference comes back whole. `None` where the query fails or selects no
/// text node at all.
pub open spec fn field_text(xml: Seq<char>, query: Seq<char>) -> Option<Seq<char>> {
    match xpath_strings(xml, query) {
        Some(pieces) => if pieces.len() == 0 {
            None
        } else {
            Some(joined(pieces))
        },
        None => None,
    }
}

/// `xpath_reader::Reader::from_str` with no context of the caller's, so that
/// the reader owns a default one (the core XPath functions, no variables, no
/// namespaces). Claims that success depends on the text alone, and names the
/// text behind the reader that comes back.
#[verifier::external_body]
pub(crate) fn open_reader<'d>(xml: &str) -> (r: Result<xpath_reader::Reader<'d>, xpath_reader::Error>)
    ensures
        r is Ok <==> xml_parses(xml@),
        r matches Ok(reader) ==> reader_source(reader) == xml@,
{
    xpath_reader::Reader::from_str(xml, None)
}

/// `xpath_reader::Reader::read` at type `Vec<String>`: the string value of
/// each node that `query` selects, in document order, none where it selects
/// none; an error where the query does not evaluate to a node set. Claims
/// that the outcome depends on the reader's text and the query alone. Asked
/// only the three field queries: evaluation panics on a name test with a
/// namespace prefix that the context does not know, and none of the three
/// has one; the nodes they select are text nodes, whose string value is
/// their own text.
#[verifier::external_body]
pub(crate) fn read_strings<'d>(reader: &'d xpath_reader::Reader<'d>, query: &str) -> (r: Result<
    Vec<String>,
    xpath_reader::Error,
>)
    requires
        is_field_query(query@),
    ensures
        match r {
            Ok(texts) => xpath_strings(reader_source(*reader), query@) == Some(texts_view(texts@)),
            Err(_) => xpath_strings(reader_source(*reader), query@) is None,
        },
{
    reader.read(query)
}

/// `xpath_reader::Error::custom_msg`: an error of the reader's own type that
/// carries `message`. Nothing is claimed of it.
#[verifier::external_body]
pub(crate) fn reader_error(message: &str) -> xpath_reader::Error {
    xpath_reader::Error::custom_msg(message)
}

/// Reads the text of the field that `query` selects, as `field_text` says.
pub(crate) fn read_field<'d>(reader: &'d xpath_reader::Reader<'d>, query: &str) -> (r: Result<
    String,
    xpath_reader::Error,
>)
    requires
        is_field_query(query@),
    ensures
        match r {
            Ok(text) => field_text(reader_source(*reader), query@) == Some(text@),
            Err(_) => field_text(reader_source(*reader), query@) is None,
        },
{
    let texts = match read_strings(reader, query) {
        Ok(texts) => texts,
        Err(err) => {
            return Err(err);
        },
    };
    if texts.len() == 0 {
        return Err(reader_error("no text"));
    }
    let ghost pieces = texts_view(texts@);
    let mut text = String::new();
    let mut i: usize = 0;
    assert(pieces.take(0) =~= Seq::<Seq<char>>::empty());
    while i < texts.len()
        invariant
            pieces == texts_view(texts@),
            i <= texts.len(),
            text@ == joined(pieces.take(i as int)),
        decreases texts.len() - i,
    {
        text.append(texts[i].as_str());
        assert(pieces.take(i + 1).drop_last() =~= pieces.take(i as int));
        assert(pieces.take(i + 1).last() == texts@[i as int]@);
        i = i + 1;
    }
    assert(pieces.take(texts.len() as int) =~= pieces);
    Ok(text)
}

} // verus!
