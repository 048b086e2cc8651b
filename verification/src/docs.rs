//! Doc comment handling: joining the lines of a comment block and merging
//! the documentation of a declaration with that of its definition.

use vstd::prelude::*;
use crate::errors::TypeError;

verus! {

/// Whether `s` starts with `p`.
pub open spec fn starts_with_seq(s: Seq<char>, p: Seq<char>) -> bool {
    s.len() >= p.len() && s.subrange(0, p.len() as int) == p
}

/// One line of documentation with its comment prefix stripped: `||| ` (with
/// the space) is preferred over `|||`, and a line with neither is kept
/// whole.
pub open spec fn spec_strip_line(line: Seq<char>) -> Seq<char> {
    if starts_with_seq(line, "||| "@) {
        line.skip("||| "@.len() as int)
    } else if starts_with_seq(line, "|||"@) {
        line.skip("|||"@.len() as int)
    } else {
        line
    }
}

/// The lines of a comment block, each stripped, joined in order.
pub open spec fn spec_concat(lines: Seq<Seq<char>>) -> Seq<char>
    decreases lines.len(),
{
    if lines.len() == 0 {
        Seq::empty()
    } else {
        spec_concat(lines.drop_last()) + spec_strip_line(lines.last())
    }
}

/// Relies on `str::strip_prefix`: the remainder of the string after the
/// prefix, when the string starts with it, and nothing otherwise.
#[verifier::external_body]
fn strip_prefix_of<'a>(s: &'a String, prefix: &str) -> (r: Option<&'a str>)
    ensures
        match r {
            Some(rest) => s@ == prefix@ + rest@,
            None => !starts_with_seq(s@, prefix@),
        },
{
    s.strip_prefix(prefix)
}

/// Relies on `String::push_str`: appends the piece at the end.
#[verifier::external_body]
fn push_str_onto(s: &mut String, piece: &str)
    ensures
        final(s)@ == old(s)@ + piece@,
{
    s.push_str(piece);
}

/// Concatenate the lines of one documentation block into a single string,
/// stripping the `||| ` or `|||` comment prefix left over from tokenization
/// from each line.  (Each line is assumed to keep its trailing newline.)
#[verifier::loop_isolation(false)]
pub fn concat(doc_lines: &[String]) -> (r: String)
    ensures
        r@ == spec_concat(doc_lines@.map_values(|s: String| s@)),
{
    let ghost views = doc_lines@.map_values(|s: String| s@);
    let mut doc = String::new();
    let n = doc_lines.len();
    let mut i: usize = 0;
    while i < n
        invariant
            i <= n,
            doc@ == spec_concat(views.subrange(0, i as int)),
        decreases n - i,
    {
        let line = &doc_lines[i];
        let piece: &str = match strip_prefix_of(line, "||| ") {
            Some(rest) => {
                proof {
                    assert(line@.subrange(0, "||| "@.len() as int) =~= "||| "@);
                    assert(line@.skip("||| "@.len() as int) =~= rest@);
                }
                rest
            },
            None => match strip_prefix_of(line, "|||") {
                Some(rest) => {
                    proof {
                        assert(line@.subrange(0, "|||"@.len() as int) =~= "|||"@);
                        assert(line@.skip("|||"@.len() as int) =~= rest@);
                    }
                    rest
                },
                None => line.as_str(),
            },
        };
        proof {
            assert(views[i as int] == doc_lines@[i as int]@);
            assert(piece@ == spec_strip_line(views[i as int]));
            assert(views.subrange(0, i + 1 as int).drop_last() =~= views.subrange(0, i as int));
            assert(views.subrange(0, i + 1 as int).last() == views[i as int]);
        }
        push_str_onto(&mut doc, piece);
        i += 1;
    }
    proof {
        assert(views.subrange(0, n as int) =~= views);
    }
    doc
}

/// Select the documentation from either the declaration or the definition:
/// empty when both are empty, the concatenation of whichever side is
/// non-empty, and an error when both sides carry documentation.
pub fn merge(name: &String, decl_docs: &[String], defn_docs: &[String]) -> (r: Result<
    String,
    TypeError,
>)
    ensures
        decl_docs@.len() == 0 && defn_docs@.len() == 0 ==> (r matches Ok(s) && s@ == Seq::<
            char,
        >::empty()),
        decl_docs@.len() > 0 && defn_docs@.len() == 0 ==> (r matches Ok(s) && s@ == spec_concat(
            decl_docs@.map_values(|l: String| l@),
        )),
        decl_docs@.len() == 0 && defn_docs@.len() > 0 ==> (r matches Ok(s) && s@ == spec_concat(
            defn_docs@.map_values(|l: String| l@),
        )),
        decl_docs@.len() > 0 && defn_docs@.len() > 0 ==> (r matches Err(e) && e == (
        TypeError::AlreadyDocumented { name: *name })),
{
    if decl_docs.len() == 0 && defn_docs.len() == 0 {
        Ok(String::new())
    } else if defn_docs.len() == 0 {
        Ok(concat(decl_docs))
    } else if decl_docs.len() == 0 {
        Ok(concat(defn_docs))
    } else {
        Err(TypeError::AlreadyDocumented { name: name.clone() })
    }
}

} // verus!
