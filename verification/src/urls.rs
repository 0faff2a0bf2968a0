//! Reading the URL list: a newline-delimited text source is parsed into the
//! ordered sequence of its non-blank, non-comment lines, each decoded as
//! UTF-8 and trimmed of surrounding Unicode whitespace.

use vstd::prelude::*;
use vstd::string::StrSliceExecFns;
use vstd::utf8::{decode_utf8, valid_utf8};

use crate::errors::PreloadError;

verus! {

/// The Unicode `White_Space` scalar values, the set that `str::trim` and
/// `char::is_whitespace` recognize.
pub open spec fn is_space_scalar(u: u32) -> bool {
    ||| u == 0x20
    ||| 0x09 <= u <= 0x0D
    ||| u == 0x85
    ||| u == 0xA0
    ||| u == 0x1680
    ||| 0x2000 <= u <= 0x200A
    ||| u == 0x2028
    ||| u == 0x2029
    ||| u == 0x202F
    ||| u == 0x205F
    ||| u == 0x3000
}

/// Whether a character is Unicode whitespace.
pub open spec fn is_space_char(c: char) -> bool {
    is_space_scalar(c as u32)
}

/// Executable check for `is_space_char`.
fn char_is_space(c: char) -> (r: bool)
    ensures
        r == is_space_char(c),
{
    let u = c as u32;
    u == 0x20 || (0x09 <= u && u <= 0x0D) || u == 0x85 || u == 0xA0 || u == 0x1680 || (0x2000 <= u
        && u <= 0x200A) || u == 0x2028 || u == 0x2029 || u == 0x202F || u == 0x205F || u == 0x3000
}

/// A decoded line with the Unicode whitespace at both ends removed.
pub open spec fn trimmed(s: Seq<char>) -> Seq<char>
    decreases s.len(),
{
    if s.len() == 0 {
        s
    } else if is_space_char(s.first()) {
        trimmed(s.drop_first())
    } else if is_space_char(s.last()) {
        trimmed(s.drop_last())
    } else {
        s
    }
}

/// The lines of a byte source, split at each line feed. The split always has
/// at least one line; a trailing line feed contributes a final empty line,
/// which is blank and therefore never kept.
pub open spec fn split_lines(s: Seq<u8>) -> Seq<Seq<u8>>
    decreases s.len(),
{
    if s.len() == 0 {
        seq![Seq::<u8>::empty()]
    } else {
        let prev = split_lines(s.drop_last());
        if s.last() == 10 {
            prev.push(Seq::<u8>::empty())
        } else {
            prev.update(prev.len() - 1, prev.last().push(s.last()))
        }
    }
}

proof fn lemma_split_lines_nonempty(s: Seq<u8>)
    ensures
        split_lines(s).len() >= 1,
    decreases s.len(),
{
    if s.len() > 0 {
        lemma_split_lines_nonempty(s.drop_last());
    }
}

/// A line is decodable when its bytes are valid UTF-8.
pub open spec fn line_decodes(line: Seq<u8>) -> bool {
    valid_utf8(line)
}

/// The URL entry a line carries: its decoded characters, trimmed.
pub open spec fn entry_of_line(line: Seq<u8>) -> Seq<char> {
    trimmed(decode_utf8(line))
}

/// A line is kept when, after decoding and trimming, it is non-empty and its
/// first character is not `#`: blank lines and comment lines are skipped.
pub open spec fn keeps_line(line: Seq<u8>) -> bool {
    entry_of_line(line).len() > 0 && entry_of_line(line).first() != '#'
}

/// The entries of the kept lines, in input order, duplicates included.
pub open spec fn url_entries(lines: Seq<Seq<u8>>) -> Seq<Seq<char>>
    decreases lines.len(),
{
    if lines.len() == 0 {
        Seq::<Seq<char>>::empty()
    } else {
        let prev = url_entries(lines.drop_last());
        if keeps_line(lines.last()) {
            prev.push(entry_of_line(lines.last()))
        } else {
            prev
        }
    }
}

/// The URL entries of a whole byte source.
pub open spec fn url_list_entries(content: Seq<u8>) -> Seq<Seq<char>> {
    url_entries(split_lines(content))
}

/// Relies on `String::from_utf8`: it returns `Ok` exactly when the bytes are
/// valid UTF-8, and then decodes them to the characters they encode, as
/// modelled by vstd's `valid_utf8` and `decode_utf8`.
#[verifier::external_body]
fn decode_line(bytes: &Vec<u8>) -> (r: Option<String>)
    ensures
        r matches Some(s) ==> valid_utf8(bytes@) && s@ == decode_utf8(bytes@),
        r is None ==> !valid_utf8(bytes@),
{
    match String::from_utf8(bytes.clone()) {
        Ok(s) => Some(s),
        Err(_) => None,
    }
}

proof fn lemma_trimmed_subrange(s: Seq<char>, lo: int, hi: int)
    requires
        0 <= lo <= hi <= s.len(),
        forall|i: int| 0 <= i < lo ==> is_space_char(#[trigger] s[i]),
        forall|i: int| hi <= i < s.len() ==> is_space_char(#[trigger] s[i]),
        lo < hi ==> !is_space_char(s[lo]) && !is_space_char(s[hi - 1]),
    ensures
        trimmed(s) == s.subrange(lo, hi),
    decreases s.len(),
{
    if s.len() == 0 {
        assert(s.subrange(lo, hi) =~= s);
    } else if is_space_char(s.first()) {
        // The first character is trimmed away, so either lo > 0 or the whole
        // line is whitespace (lo == hi == 0).
        let t = s.drop_first();
        if lo > 0 {
            lemma_trimmed_subrange(t, lo - 1, hi - 1);
            assert(t.subrange(lo - 1, hi - 1) =~= s.subrange(lo, hi));
        } else {
            assert(lo == hi);
            lemma_trimmed_subrange(t, 0, 0);
            assert(t.subrange(0, 0) =~= s.subrange(lo, hi));
        }
    } else if is_space_char(s.last()) {
        let t = s.drop_last();
        assert(hi < s.len());
        lemma_trimmed_subrange(t, lo, hi);
        assert(t.subrange(lo, hi) =~= s.subrange(lo, hi));
    } else {
        assert(lo == 0 && hi == s.len());
        assert(s.subrange(lo, hi) =~= s);
    }
}

/// Removes the Unicode whitespace at both ends of a decoded line.
fn trim_chars(s: &String) -> (r: String)
    ensures
        r@ == trimmed(s@),
{
    let text = s.as_str();
    let n = text.unicode_len();
    let mut lo: usize = 0;
    let mut hi: usize = n;
    while lo < hi && char_is_space(text.get_char(lo))
        invariant
            0 <= lo <= hi <= s@.len(),
            text@ == s@,
            hi == n == s@.len(),
            forall|i: int| 0 <= i < lo ==> is_space_char(#[trigger] s@[i]),
        decreases hi - lo,
    {
        lo = lo + 1;
    }
    while lo < hi && char_is_space(text.get_char(hi - 1))
        invariant
            0 <= lo <= hi <= s@.len(),
            text@ == s@,
            n == s@.len(),
            forall|i: int| 0 <= i < lo ==> is_space_char(#[trigger] s@[i]),
            forall|i: int| hi <= i < s@.len() ==> is_space_char(#[trigger] s@[i]),
            lo < hi ==> !is_space_char(s@[lo as int]),
        decreases hi,
    {
        hi = hi - 1;
    }
    proof {
        lemma_trimmed_subrange(s@, lo as int, hi as int);
    }
    text.substring_char(lo, hi).to_owned()
}

/// Splits a byte source at each line feed.
fn split_into_lines(content: &Vec<u8>) -> (r: Vec<Vec<u8>>)
    ensures
        r@.len() == split_lines(content@).len(),
        forall|j: int| 0 <= j < r@.len() ==> (#[trigger] r@[j])@ == split_lines(content@)[j],
{
    let mut lines: Vec<Vec<u8>> = Vec::new();
    let mut current: Vec<u8> = Vec::new();
    let mut i: usize = 0;
    while i < content.len()
        invariant
            i <= content@.len(),
            lines@.len() + 1 == split_lines(content@.take(i as int)).len(),
            forall|j: int|
                0 <= j < lines@.len() ==> (#[trigger] lines@[j])@ == split_lines(
                    content@.take(i as int),
                )[j],
            current@ == split_lines(content@.take(i as int)).last(),
        decreases content@.len() - i,
    {
        let b = content[i];
        proof {
            assert(content@.take(i + 1).drop_last() =~= content@.take(i as int));
            assert(content@.take(i + 1).last() == content@[i as int]);
            lemma_split_lines_nonempty(content@.take(i as int));
        }
        if b == 10 {
            lines.push(current);
            current = Vec::new();
        } else {
            current.push(b);
        }
        i = i + 1;
    }
    proof {
        assert(content@.take(content@.len() as int) =~= content@);
        lemma_split_lines_nonempty(content@);
    }
    lines.push(current);
    lines
}

/// Parses the full contents of a URL list source into the ordered sequence of
/// its URLs: one entry per non-blank, non-comment line, decoded and trimmed,
/// in input order, duplicates included. Succeeds whenever every line is valid
/// UTF-8; fails with `LineDecode` naming the 1-based number of the first line
/// that is not.
pub fn parse_url_list(content: &Vec<u8>) -> (r: Result<Vec<String>, PreloadError>)
    ensures
        (forall|j: int|
            0 <= j < split_lines(content@).len() ==> line_decodes(
                #[trigger] split_lines(content@)[j],
            )) ==> r is Ok,
        match r {
            Ok(urls) => {
                &&& forall|j: int|
                    0 <= j < split_lines(content@).len() ==> line_decodes(
                        #[trigger] split_lines(content@)[j],
                    )
                &&& urls@.len() == url_list_entries(content@).len()
                &&& forall|i: int|
                    0 <= i < urls@.len() ==> (#[trigger] urls@[i])@ == url_list_entries(content@)[i]
            },
            Err(e) => match e {
                PreloadError::LineDecode { line } => {
                    &&& 1 <= line <= split_lines(content@).len()
                    &&& !line_decodes(split_lines(content@)[line - 1])
                    &&& forall|j: int|
                        0 <= j < line - 1 ==> line_decodes(#[trigger] split_lines(content@)[j])
                },
                _ => false,
            },
        },
{
    let lines = split_into_lines(content);
    let ghost all = split_lines(content@);
    let mut urls: Vec<String> = Vec::new();
    let mut idx: usize = 0;
    while idx < lines.len()
        invariant
            idx <= lines@.len(),
            lines@.len() == all.len(),
            all == split_lines(content@),
            forall|j: int| 0 <= j < lines@.len() ==> (#[trigger] lines@[j])@ == all[j],
            forall|j: int| 0 <= j < idx ==> line_decodes(#[trigger] all[j]),
            urls@.len() == url_entries(all.take(idx as int)).len(),
            forall|i: int|
                0 <= i < urls@.len() ==> (#[trigger] urls@[i])@ == url_entries(
                    all.take(idx as int),
                )[i],
        decreases lines@.len() - idx,
    {
        proof {
            assert(all.take(idx + 1).drop_last() =~= all.take(idx as int));
            assert(all.take(idx + 1).last() == all[idx as int]);
        }
        match decode_line(&lines[idx]) {
            None => {
                return Err(PreloadError::LineDecode { line: idx + 1 });
            },
            Some(s) => {
                let t = trim_chars(&s);
                let t_len = t.as_str().unicode_len();
                if t_len == 0 {
                    // Blank line: skipped.
                } else if t.as_str().get_char(0) == '#' {
                    // Comment line: skipped.
                } else {
                    urls.push(t);
                }
            },
        }
        idx = idx + 1;
    }
    proof {
        assert(all.take(all.len() as int) =~= all);
    }
    Ok(urls)
}

} // verus!
