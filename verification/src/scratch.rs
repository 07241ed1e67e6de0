//! Scratch files: where a conversion keeps its input and its output, and
//! why two conversions never share a file.

use vstd::prelude::*;
use crate::decimal::{decimal, numeral_is_digits, numerals_differ, push_decimal};
use crate::transcoder::Conversion;

verus! {

/// The scratch files of one conversion.
#[derive(Debug, PartialEq, Eq)]
pub struct ScratchPaths {
    /// Where the audio to convert is written.
    pub input: String,
    /// Where the transcoder writes the converted audio.
    pub output: String,
}

/// A [`ScratchPaths`] as contracts see it.
pub struct ScratchPathsView {
    pub input: Seq<char>,
    pub output: Seq<char>,
}

impl View for ScratchPaths {
    type V = ScratchPathsView;

    open spec fn view(&self) -> ScratchPathsView {
        ScratchPathsView { input: self.input@, output: self.output@ }
    }
}

/// A list of no scratch file.
pub(crate) fn no_paths() -> (paths: Vec<String>)
    ensures
        paths.deep_view() == Seq::<Seq<char>>::empty(),
{
    let paths: Vec<String> = Vec::new();
    assert(paths.deep_view() =~= Seq::<Seq<char>>::empty());
    paths
}

/// A list of one scratch file.
pub(crate) fn one_path(path: &str) -> (paths: Vec<String>)
    ensures
        paths.deep_view() == seq![path@],
{
    let mut paths: Vec<String> = Vec::new();
    paths.push(path.to_owned());
    assert(paths.deep_view() =~= seq![path@]);
    paths
}

/// A list of two scratch files.
pub(crate) fn two_paths(first: &str, second: &str) -> (paths: Vec<String>)
    ensures
        paths.deep_view() == seq![first@, second@],
{
    let mut paths: Vec<String> = Vec::new();
    paths.push(first.to_owned());
    paths.push(second.to_owned());
    assert(paths.deep_view() =~= seq![first@, second@]);
    paths
}

/// The ending of the file that a conversion reads.
pub open spec fn input_ending(conversion: Conversion) -> Seq<char> {
    match conversion {
        Conversion::Normalize => "-input.webm"@,
        Conversion::Deliver => "-input.wav"@,
    }
}

/// The ending of the file that a conversion writes.
pub open spec fn output_ending(conversion: Conversion) -> Seq<char> {
    match conversion {
        Conversion::Normalize => "-output.wav"@,
        Conversion::Deliver => "-output.mp3"@,
    }
}

/// The name of a scratch file: in `directory`, the word `request`, the
/// request's number and the file's ending.
pub open spec fn scratch_name(directory: Seq<char>, request: nat, ending: Seq<char>) -> Seq<char> {
    directory + "/request-"@ + decimal(request) + ending
}

/// The scratch files of a conversion for the request numbered `request`.
pub open spec fn scratch_for(
    conversion: Conversion,
    directory: Seq<char>,
    request: nat,
) -> ScratchPathsView {
    ScratchPathsView {
        input: scratch_name(directory, request, input_ending(conversion)),
        output: scratch_name(directory, request, output_ending(conversion)),
    }
}

/// Builds the name of one scratch file.
fn scratch_file(directory: &str, request: u64, ending: &str) -> (name: String)
    ensures
        name@ == scratch_name(directory@, request as nat, ending@),
{
    let mut name = directory.to_owned();
    name.append("/request-");
    push_decimal(&mut name, request);
    name.append(ending);
    name
}

/// Names the scratch files of a conversion. Requests with different
/// numbers get different files, so conversions that run side by side do not
/// touch each other's data as long as no number is handed out twice.
pub fn scratch_paths(
    conversion: Conversion,
    directory: &str,
    request: u64,
) -> (paths: ScratchPaths)
    ensures
        paths@ == scratch_for(conversion, directory@, request as nat),
{
    let (input_end, output_end) = match conversion {
        Conversion::Normalize => ("-input.webm", "-output.wav"),
        Conversion::Deliver => ("-input.wav", "-output.mp3"),
    };
    ScratchPaths {
        input: scratch_file(directory, request, input_end),
        output: scratch_file(directory, request, output_end),
    }
}

/// A scratch name is read back in one way only: two names in one
/// directory are the same only for the same request and the same ending.
/// The endings begin with a hyphen, which no numeral holds.
pub proof fn scratch_names_are_unique(
    directory: Seq<char>,
    first: nat,
    first_ending: Seq<char>,
    second: nat,
    second_ending: Seq<char>,
)
    requires
        first_ending.len() > 0,
        second_ending.len() > 0,
        first_ending[0] == '-',
        second_ending[0] == '-',
        scratch_name(directory, first, first_ending) == scratch_name(
            directory,
            second,
            second_ending,
        ),
    ensures
        first == second,
        first_ending == second_ending,
{
    let lead = directory + "/request-"@;
    let a = decimal(first);
    let b = decimal(second);
    let left = scratch_name(directory, first, first_ending);
    let right = scratch_name(directory, second, second_ending);
    numeral_is_digits(first);
    numeral_is_digits(second);
    assert(left =~= lead + (a + first_ending));
    assert(right =~= lead + (b + second_ending));
    let x = a + first_ending;
    let y = b + second_ending;
    assert(x =~= left.subrange(lead.len() as int, left.len() as int));
    assert(y =~= right.subrange(lead.len() as int, right.len() as int));
    assert(x == y);
    if a.len() < b.len() {
        assert(x[a.len() as int] == first_ending[0]);
        assert(y[a.len() as int] == b[a.len() as int]);
        assert(false);
    }
    if b.len() < a.len() {
        assert(y[b.len() as int] == second_ending[0]);
        assert(x[b.len() as int] == a[b.len() as int]);
        assert(false);
    }
    assert(a =~= x.subrange(0, a.len() as int));
    assert(b =~= y.subrange(0, b.len() as int));
    assert(first_ending =~= x.subrange(a.len() as int, x.len() as int));
    assert(second_ending =~= y.subrange(b.len() as int, y.len() as int));
    if first != second {
        numerals_differ(first, second);
    }
}

/// The endings of the scratch files begin with a hyphen, and the file that
/// a conversion reads never ends as the file that a conversion writes.
pub proof fn endings_are_told_apart(reading: Conversion, writing: Conversion)
    ensures
        input_ending(reading).len() > 0,
        output_ending(writing).len() > 0,
        input_ending(reading)[0] == '-',
        output_ending(writing)[0] == '-',
        input_ending(reading) != output_ending(writing),
        reading != writing ==> input_ending(reading) != input_ending(writing),
        reading != writing ==> output_ending(reading) != output_ending(writing),
{
    reveal_strlit("-input.webm");
    reveal_strlit("-input.wav");
    reveal_strlit("-output.wav");
    reveal_strlit("-output.mp3");
    assert("-input.webm"@[1] != "-output.wav"@[1]);
    assert("-input.webm"@[1] != "-output.mp3"@[1]);
    assert("-input.wav"@[1] != "-output.wav"@[1]);
    assert("-input.wav"@[1] != "-output.mp3"@[1]);
    assert("-input.webm"@[8] != "-input.wav"@[8]);
    assert("-output.wav"@[8] != "-output.mp3"@[8]);
}

/// Conversions do not share scratch files: the file that one reads is never
/// the file that one writes, and the files of two conversions are all
/// different as soon as their requests or their kinds differ.
pub proof fn scratch_files_are_disjoint(
    directory: Seq<char>,
    first_kind: Conversion,
    first: nat,
    second_kind: Conversion,
    second: nat,
)
    ensures
        scratch_for(first_kind, directory, first).input != scratch_for(
            second_kind,
            directory,
            second,
        ).output,
        first != second || first_kind != second_kind ==> scratch_for(
            first_kind,
            directory,
            first,
        ).input != scratch_for(second_kind, directory, second).input && scratch_for(
            first_kind,
            directory,
            first,
        ).output != scratch_for(second_kind, directory, second).output,
{
    endings_are_told_apart(first_kind, second_kind);
    endings_are_told_apart(second_kind, first_kind);
    let a = scratch_for(first_kind, directory, first);
    let b = scratch_for(second_kind, directory, second);
    if a.input == b.output {
        scratch_names_are_unique(
            directory,
            first,
            input_ending(first_kind),
            second,
            output_ending(second_kind),
        );
    }
    if a.input == b.input {
        scratch_names_are_unique(
            directory,
            first,
            input_ending(first_kind),
            second,
            input_ending(second_kind),
        );
    }
    if a.output == b.output {
        scratch_names_are_unique(
            directory,
            first,
            output_ending(first_kind),
            second,
            output_ending(second_kind),
        );
    }
}

} // verus!
