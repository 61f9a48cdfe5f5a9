use vstd::prelude::*;
use vstd::string::StringExecFns;
use vstd::string::StringSliceAdditionalSpecFns;
use vstd::utf8::encode_utf8;
use base64::Engine;
use crate::response::SearchResponse;
use crate::text::{contains_bytes, contains_seq};

verus! {

/// What `str::trim` makes of a text.
pub uninterp spec fn trimmed(s: Seq<char>) -> Seq<char>;

/// What the standard base64 alphabet, with padding, makes of some bytes.
pub uninterp spec fn base64_standard(b: Seq<u8>) -> Seq<char>;

/// `part` is a contiguous part of `whole`.
pub open spec fn is_slice_of(part: Seq<char>, whole: Seq<char>) -> bool {
    exists|i: int, j: int| 0 <= i <= j <= whole.len() && part == whole.subrange(i, j)
}

/// Relies on `str::trim`: the result is the text with leading and trailing
/// whitespace removed, so a contiguous part of it.
#[verifier::external_body]
fn trim_text(s: &str) -> (r: &str)
    ensures
        r@ == trimmed(s@),
        is_slice_of(r@, s@),
{
    s.trim()
}

/// Relies on `base64::Engine::encode` with the standard padded engine: four
/// characters for each started group of three bytes. It panics only when that
/// length overflows `usize`.
#[verifier::external_body]
fn base64_encode(b: &[u8]) -> (r: String)
    requires
        b@.len() <= usize::MAX / 2,
    ensures
        r@ == base64_standard(b@),
        r@.len() == 4 * ((b@.len() + 2) / 3),
{
    base64::engine::general_purpose::STANDARD.encode(b)
}

/// One command of the interactive prompt.
#[derive(Debug)]
pub enum Command {
    Exit,
    Help,
    Search(String),
}

/// The command that an already trimmed line stands for.
pub open spec fn command_spec(t: Seq<char>, c: Command) -> bool {
    if t == "exit"@ {
        c is Exit
    } else if t == "help"@ {
        c is Help
    } else {
        c matches Command::Search(q) && q@ == t
    }
}

/// The command that a trimmed line stands for: `exit`, `help`, or else a
/// search for the line.
pub fn command_of(text: &str) -> (c: Command)
    ensures
        command_spec(text@, c),
{
    let t = String::from_str(text);
    if t == String::from_str("exit") {
        Command::Exit
    } else if t == String::from_str("help") {
        Command::Help
    } else {
        Command::Search(t)
    }
}

/// The command that an input line stands for, once trimmed.
pub fn parse_command(line: &str) -> (c: Command)
    ensures
        command_spec(trimmed(line@), c),
{
    command_of(trim_text(line))
}

/// Encodes a query as the API expects it: its UTF-8 bytes in standard base64.
pub fn encode_query(query: &str) -> (r: String)
    requires
        query.spec_bytes().len() <= usize::MAX / 2,
    ensures
        r@ == base64_standard(query.spec_bytes()),
        r@.len() == 4 * ((query.spec_bytes().len() + 2) / 3),
{
    base64_encode(query.as_bytes())
}

/// The bytes of the scheme marker looked for in a host.
pub open spec fn http_bytes() -> Seq<u8> {
    seq![0x68u8, 0x74u8, 0x74u8, 0x70u8]
}

/// The output line for the first field of an entry: the field itself where
/// it holds `http`, else the field behind `http://`.
pub open spec fn line_of(host: Seq<char>) -> Seq<char> {
    if contains_seq(encode_utf8(host), http_bytes()) {
        host
    } else {
        "http://"@ + host
    }
}

/// The output line for the first field of an entry.
pub fn output_line(host: &str) -> (r: String)
    ensures
        r@ == line_of(host@),
{
    let http: [u8; 4] = [0x68u8, 0x74u8, 0x74u8, 0x70u8];
    proof {
        assert(http@ =~= http_bytes());
    }
    if contains_bytes(host.as_bytes(), http.as_slice()) {
        String::from_str(host)
    } else {
        String::from_str("http://").concat(host)
    }
}

/// The output lines of a run of pages, page by page and entry by entry.
pub open spec fn lines_of(pages: Seq<SearchResponse>) -> Seq<Seq<char>>
    decreases pages.len(),
{
    if pages.len() == 0 {
        Seq::empty()
    } else {
        lines_of(pages.drop_last()) + pages.last().results@.map_values(
            |e: [String; 3]| line_of(e[0]@),
        )
    }
}

/// The output lines of the pages of a search: one per entry.
pub fn output_lines(pages: &Vec<SearchResponse>) -> (r: Vec<String>)
    ensures
        r@.map_values(|s: String| s@) == lines_of(pages@),
{
    let mut out: Vec<String> = Vec::new();
    let mut i: usize = 0;
    while i < pages.len()
        invariant
            i <= pages@.len(),
            out@.map_values(|s: String| s@) == lines_of(pages@.subrange(0, i as int)),
        decreases pages@.len() - i,
    {
        let entries = &pages[i].results;
        let ghost before = out@.map_values(|s: String| s@);
        let mut k: usize = 0;
        while k < entries.len()
            invariant
                i < pages@.len(),
                entries == pages@[i as int].results,
                k <= entries@.len(),
                out@.map_values(|s: String| s@) == before + entries@.subrange(0, k as int).map_values(
                    |e: [String; 3]| line_of(e[0]@),
                ),
            decreases entries@.len() - k,
        {
            let host = &entries[k][0];
            let line = output_line(host.as_str());
            proof {
                assert(host@ == entries@[k as int][0]@);
            }
            out.push(line);
            proof {
                let ghost before_push = before + entries@.subrange(0, k as int).map_values(
                    |e: [String; 3]| line_of(e[0]@),
                );
                assert(out@.map_values(|s: String| s@) =~= before_push.push(line@));
                assert(out@.map_values(|s: String| s@) =~= before + entries@.subrange(0, k + 1).map_values(
                    |e: [String; 3]| line_of(e[0]@),
                ));
            }
            k = k + 1;
        }
        proof {
            let p = pages@.subrange(0, i + 1);
            assert(p.drop_last() =~= pages@.subrange(0, i as int));
            assert(entries@.subrange(0, k as int) =~= entries@);
            assert(out@.map_values(|s: String| s@) =~= lines_of(p));
        }
        i = i + 1;
    }
    proof {
        assert(pages@.subrange(0, i as int) =~= pages@);
    }
    out
}

/// The sum of the result counts that a run of pages reports.
pub open spec fn size_sum(pages: Seq<SearchResponse>) -> int
    decreases pages.len(),
{
    if pages.len() == 0 {
        0
    } else {
        size_sum(pages.drop_last()) + pages.last().size
    }
}

/// The sum of the result counts that the pages report.
pub fn total_results(pages: &Vec<SearchResponse>) -> (r: u64)
    requires
        pages@.len() <= u32::MAX,
    ensures
        r == size_sum(pages@),
{
    let mut sum: u64 = 0;
    let mut i: usize = 0;
    while i < pages.len()
        invariant
            i <= pages@.len() <= u32::MAX,
            sum == size_sum(pages@.subrange(0, i as int)),
            sum <= i * (u32::MAX as int),
        decreases pages@.len() - i,
    {
        proof {
            assert(pages@.subrange(0, i + 1).drop_last() =~= pages@.subrange(0, i as int));
            assert((i + 1) * (u32::MAX as int) == i * (u32::MAX as int) + u32::MAX) by (nonlinear_arith);
            assert(i * (u32::MAX as int) <= (u32::MAX as int) * (u32::MAX as int)) by (nonlinear_arith)
                requires i <= u32::MAX;
        }
        sum = sum + pages[i].size as u64;
        i = i + 1;
    }
    proof {
        assert(pages@.subrange(0, i as int) =~= pages@);
    }
    sum
}

} // verus!
