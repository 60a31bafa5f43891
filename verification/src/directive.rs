//! The two lines that tell the linker where the library lies and what it
//! is called, and the streams they go to.

use vstd::prelude::*;
use crate::path::{forward_slashes, lemma_unchanged_iff_no_backslash, normalize_separators};

verus! {

/// Flag that begins the line naming the directory to search.
pub const SEARCH_PATH_FLAG: &'static str = "-L";

/// Flag that begins the line naming the library to link.
pub const LINK_NAME_FLAG: &'static str = "-l";

/// Name handed to the linker until the artifact has one of its own.
pub const LINK_NAME: &'static str = "TODO_CRATE_NAME";

/// One of the two streams that every line goes to.
#[derive(Clone, Copy, Debug, PartialEq, Eq, Structural)]
pub enum Stream {
    Stdout,
    Stderr,
}

/// One line handed to one stream.
#[derive(Debug, PartialEq, Eq)]
pub struct Record {
    pub stream: Stream,
    pub line: String,
}

impl View for Record {
    type V = (Stream, Seq<char>);

    open spec fn view(&self) -> (Stream, Seq<char>) {
        (self.stream, self.line@)
    }
}

/// The records of `out` as plain values, in order.
pub open spec fn record_views(out: Seq<Record>) -> Seq<(Stream, Seq<char>)> {
    out.map_values(|r: Record| r@)
}

/// The search-path line for the directory `dir`.
pub open spec fn search_path_line(dir: Seq<char>) -> Seq<char> {
    SEARCH_PATH_FLAG@ + forward_slashes(dir)
}

/// The line that names the library.
pub open spec fn link_name_line() -> Seq<char> {
    LINK_NAME_FLAG@ + LINK_NAME@
}

/// The two lines in the order in which they are written.
pub open spec fn directive_lines(dir: Seq<char>) -> Seq<Seq<char>> {
    seq![search_path_line(dir), link_name_line()]
}

/// What is written for the directory `dir`: each line to standard error
/// and then to standard output, the search path before the name.
pub open spec fn emission(dir: Seq<char>) -> Seq<(Stream, Seq<char>)> {
    seq![
        (Stream::Stderr, search_path_line(dir)),
        (Stream::Stdout, search_path_line(dir)),
        (Stream::Stderr, link_name_line()),
        (Stream::Stdout, link_name_line()),
    ]
}

/// The lines that `writes` hand to `stream`, in order.
pub open spec fn lines_on(writes: Seq<(Stream, Seq<char>)>, stream: Stream) -> Seq<Seq<char>> {
    writes.filter(|w: (Stream, Seq<char>)| w.0 == stream).map_values(
        |w: (Stream, Seq<char>)| w.1,
    )
}

/// The `-L` line for `dir`, the directory as the host resolved it.
pub fn search_path_directive(dir: &str) -> (line: String)
    ensures
        line@ == search_path_line(dir@),
{
    let path = normalize_separators(dir);
    String::from_str(SEARCH_PATH_FLAG).concat(path.as_str())
}

/// The `-l` line.
pub fn link_name_directive() -> (line: String)
    ensures
        line@ == link_name_line(),
{
    String::from_str(LINK_NAME_FLAG).concat(LINK_NAME)
}

/// Everything a successful run writes for `dir`, in the order of writing.
pub fn emission_records(dir: &str) -> (out: Vec<Record>)
    ensures
        record_views(out@) == emission(dir@),
{
    let search_path = search_path_directive(dir);
    let link_name = link_name_directive();
    let mut out: Vec<Record> = Vec::new();
    out.push(Record { stream: Stream::Stderr, line: search_path.clone() });
    out.push(Record { stream: Stream::Stdout, line: search_path });
    out.push(Record { stream: Stream::Stderr, line: link_name.clone() });
    out.push(Record { stream: Stream::Stdout, line: link_name });
    out
}

/// Where the resolved directory holds no backslash, the path on the
/// search-path line is that directory, character for character.
pub proof fn lemma_search_path_is_directory(dir: Seq<char>)
    requires
        !dir.contains('\\'),
    ensures
        search_path_line(dir) == SEARCH_PATH_FLAG@ + dir,
{
    lemma_unchanged_iff_no_backslash(dir);
}

/// Either stream receives the two directive lines and nothing else.
pub proof fn lemma_two_lines_per_stream(dir: Seq<char>, stream: Stream)
    ensures
        lines_on(emission(dir), stream) == directive_lines(dir),
        lines_on(emission(dir), stream).len() == 2,
{
    reveal_with_fuel(Seq::filter, 5);
}

} // verus!
