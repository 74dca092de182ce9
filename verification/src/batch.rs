//! A batch: the requests made of its files, and the count of how they ended.

use vstd::prelude::*;
use vstd::string::*;
use crate::format::OutputFormat;
use crate::job::ConversionRequest;
use crate::outcome::ConversionOutcome;
use crate::path::{make_output_path, output_path, ComponentView, FilePath};

verus! {

/// What is asked of every file of a batch.
#[derive(Debug, PartialEq, Eq)]
pub struct BatchConfig {
    /// The directory for the converted files; beside each input where none.
    pub output_dir: Option<FilePath>,
    /// The container of the converted files.
    pub format: OutputFormat,
    /// The quality of the lossy format, 1 to 100.
    pub quality: u8,
    /// The longest edge that a converted image may have.
    pub max_long_edge: Option<u32>,
    /// Whether output files that exist are written anew.
    pub overwrite: bool,
}

/// Why a batch cannot run at all.
#[derive(Clone, Copy, Debug, PartialEq, Eq, Structural)]
pub enum BatchError {
    /// The inputs gave no file.
    EmptyBatch,
}

impl BatchError {
    /// The error in words.
    pub open spec fn spec_message(&self) -> Seq<char> {
        "No ARW files found in the provided inputs."@
    }

    /// The error in words.
    pub fn message(&self) -> (text: String)
        ensures
            text@ == self.spec_message(),
    {
        String::from_str("No ARW files found in the provided inputs.")
    }
}

impl BatchConfig {
    /// The output directory as a path value, where one was asked for.
    pub open spec fn directory(&self) -> Option<Seq<ComponentView>> {
        match self.output_dir {
            Some(dir) => Some(dir@),
            None => None,
        }
    }

    /// The request that the batch makes of `input` is `request`: the one
    /// output path that belongs to the input, and the settings of the batch.
    pub open spec fn asks(&self, input: FilePath, request: ConversionRequest) -> bool {
        &&& request.input == input
        &&& request.output@ == output_path(input@, self.directory(), self.format)
        &&& request.format == self.format
        &&& request.quality == self.quality
        &&& request.max_long_edge == self.max_long_edge
        &&& request.overwrite == self.overwrite
    }

    /// Makes the request for one input file.
    pub fn request_for(&self, input: FilePath) -> (request: ConversionRequest)
        ensures
            self.asks(input, request),
    {
        let output: FilePath = match &self.output_dir {
            Some(dir) => make_output_path(&input, Some(dir), self.format),
            None => make_output_path(&input, None, self.format),
        };
        ConversionRequest {
            input,
            output,
            format: self.format,
            quality: self.quality,
            max_long_edge: self.max_long_edge,
            overwrite: self.overwrite,
        }
    }
}

/// Makes the requests of a batch, one for each file and in the order of the
/// files. A batch without files is an error, and nothing is to be done.
pub fn plan_batch(files: Vec<FilePath>, config: &BatchConfig) -> (r: Result<
    Vec<ConversionRequest>,
    BatchError,
>)
    ensures
        files@.len() == 0 ==> r == Err::<Vec<ConversionRequest>, BatchError>(
            BatchError::EmptyBatch,
        ),
        files@.len() > 0 ==> (r matches Ok(requests) && requests@.len() == files@.len()
            && forall|i: int|
            0 <= i < files@.len() ==> config.asks(files@[i], #[trigger] requests@[i])),
{
    if files.len() == 0 {
        return Err(BatchError::EmptyBatch);
    }
    let mut rest: Vec<FilePath> = files;
    let mut requests: Vec<ConversionRequest> = Vec::new();
    while rest.len() > 0
        invariant
            requests@.len() + rest@.len() == files@.len(),
            rest@ == files@.skip(requests@.len() as int),
            forall|i: int|
                0 <= i < requests@.len() ==> config.asks(files@[i], #[trigger] requests@[i]),
        decreases rest@.len(),
    {
        let input: FilePath = rest.remove(0);
        assert(input == files@[requests@.len() as int]);
        let request: ConversionRequest = config.request_for(input);
        requests.push(request);
        assert(rest@ =~= files@.skip(requests@.len() as int));
    }
    Ok(requests)
}

/// How many files of a batch succeeded, failed and were skipped.
#[derive(Clone, Copy, Debug, PartialEq, Eq, Structural)]
pub struct BatchTally {
    pub succeeded: usize,
    pub failed: usize,
    pub skipped: usize,
}

/// The count of `outcomes`: one for each, under its own kind.
pub open spec fn tallied(outcomes: Seq<ConversionOutcome>) -> (nat, nat, nat)
    decreases outcomes.len(),
{
    if outcomes.len() == 0 {
        (0, 0, 0)
    } else {
        let (succeeded, failed, skipped) = tallied(outcomes.drop_last());
        match outcomes.last() {
            ConversionOutcome::Success => (succeeded + 1, failed, skipped),
            ConversionOutcome::Failed(_) => (succeeded, failed + 1, skipped),
            ConversionOutcome::Skipped => (succeeded, failed, skipped + 1),
        }
    }
}

/// The decimal digit of a number below ten.
pub open spec fn digit(d: nat) -> char {
    (('0' as int) + d) as char
}

/// A number in decimal digits, without leading zeros.
pub open spec fn decimal(n: nat) -> Seq<char>
    decreases n,
{
    if n < 10 {
        seq![digit(n)]
    } else {
        decimal(n / 10).push(digit(n % 10))
    }
}

/// The line that reports a tally: the three counts, each with its word.
pub open spec fn tally_line(succeeded: nat, failed: nat, skipped: nat) -> Seq<char> {
    decimal(succeeded) + " succeeded, "@ + decimal(failed) + " failed, "@ + decimal(skipped)
        + " skipped"@
}

/// The digit of a number below ten, as text.
fn digit_text(d: usize) -> (text: &'static str)
    requires
        d < 10,
    ensures
        text@ == seq![digit(d as nat)],
{
    proof {
        reveal_strlit("0");
        reveal_strlit("1");
        reveal_strlit("2");
        reveal_strlit("3");
        reveal_strlit("4");
        reveal_strlit("5");
        reveal_strlit("6");
        reveal_strlit("7");
        reveal_strlit("8");
        reveal_strlit("9");
    }
    let text: &'static str = if d == 0 {
        "0"
    } else if d == 1 {
        "1"
    } else if d == 2 {
        "2"
    } else if d == 3 {
        "3"
    } else if d == 4 {
        "4"
    } else if d == 5 {
        "5"
    } else if d == 6 {
        "6"
    } else if d == 7 {
        "7"
    } else if d == 8 {
        "8"
    } else {
        "9"
    };
    assert(text@ =~= seq![digit(d as nat)]);
    text
}

/// Writes a number in decimal digits.
fn decimal_text(n: usize) -> (text: String)
    ensures
        text@ == decimal(n as nat),
    decreases n,
{
    if n < 10 {
        String::from_str(digit_text(n))
    } else {
        let text: String = decimal_text(n / 10).concat(digit_text(n % 10));
        assert(text@ =~= decimal(n as nat));
        text
    }
}

impl BatchTally {
    /// The number of files counted.
    pub open spec fn total(&self) -> int {
        self.succeeded + self.failed + self.skipped
    }

    /// The tally is the count of `outcomes`.
    pub open spec fn counts(&self, outcomes: Seq<ConversionOutcome>) -> bool {
        tallied(outcomes) == (self.succeeded as nat, self.failed as nat, self.skipped as nat)
    }

    /// The tally of no files.
    pub fn new() -> (t: BatchTally)
        ensures
            t.counts(Seq::empty()),
            t.total() == 0,
    {
        BatchTally { succeeded: 0, failed: 0, skipped: 0 }
    }

    /// The line that reports the tally:
    /// `<succeeded> succeeded, <failed> failed, <skipped> skipped`.
    pub fn summary(&self) -> (line: String)
        ensures
            line@ == tally_line(self.succeeded as nat, self.failed as nat, self.skipped as nat),
    {
        decimal_text(self.succeeded).concat(" succeeded, ").concat(
            decimal_text(self.failed).as_str(),
        ).concat(" failed, ").concat(decimal_text(self.skipped).as_str()).concat(" skipped")
    }

    /// Counts one more file under the kind of its outcome. The other counts
    /// stay.
    pub fn record(&mut self, outcome: &ConversionOutcome)
        requires
            old(self).total() < usize::MAX,
        ensures
            final(self).total() == old(self).total() + 1,
            match outcome {
                ConversionOutcome::Success => *final(self) == (BatchTally {
                    succeeded: (old(self).succeeded + 1) as usize,
                    ..*old(self)
                }),
                ConversionOutcome::Failed(_) => *final(self) == (BatchTally {
                    failed: (old(self).failed + 1) as usize,
                    ..*old(self)
                }),
                ConversionOutcome::Skipped => *final(self) == (BatchTally {
                    skipped: (old(self).skipped + 1) as usize,
                    ..*old(self)
                }),
            },
            forall|outcomes: Seq<ConversionOutcome>| #[trigger]
                old(self).counts(outcomes) ==> final(self).counts(outcomes.push(*outcome)),
    {
        assert forall|outcomes: Seq<ConversionOutcome>| #![auto]
            outcomes.push(*outcome).drop_last() == outcomes && outcomes.push(*outcome).last()
                == *outcome by {
            assert(outcomes.push(*outcome).drop_last() =~= outcomes);
        }
        match outcome {
            ConversionOutcome::Success => { self.succeeded = self.succeeded + 1; },
            ConversionOutcome::Failed(_) => { self.failed = self.failed + 1; },
            ConversionOutcome::Skipped => { self.skipped = self.skipped + 1; },
        }
    }
}

/// Counts how the files of a batch ended. Every file is counted once, so the
/// three counts add up to the number of files.
pub fn tally(outcomes: &Vec<ConversionOutcome>) -> (t: BatchTally)
    ensures
        t.counts(outcomes@),
        t.total() == outcomes@.len(),
{
    let mut t: BatchTally = BatchTally::new();
    let mut i: usize = 0;
    assert(outcomes@.take(0) =~= Seq::<ConversionOutcome>::empty());
    while i < outcomes.len()
        invariant
            i <= outcomes@.len(),
            t.counts(outcomes@.take(i as int)),
            t.total() == i,
        decreases outcomes@.len() - i,
    {
        assert(outcomes@.take(i as int).push(outcomes@[i as int]) =~= outcomes@.take(i + 1));
        t.record(&outcomes[i]);
        i = i + 1;
    }
    assert(outcomes@.take(i as int) =~= outcomes@);
    t
}

/// The three counts add up to the number of files: each file is counted, and
/// none twice, whatever became of the others.
pub proof fn lemma_tally_total(outcomes: Seq<ConversionOutcome>)
    ensures
        tallied(outcomes).0 + tallied(outcomes).1 + tallied(outcomes).2 == outcomes.len(),
    decreases outcomes.len(),
{
    if outcomes.len() > 0 {
        lemma_tally_total(outcomes.drop_last());
    }
}

/// The count of two runs of files is the sum of their counts: what one file
/// adds does not depend on the files around it, nor on the order in which
/// the files ended.
pub proof fn lemma_tally_concat(first: Seq<ConversionOutcome>, second: Seq<ConversionOutcome>)
    ensures
        tallied(first + second).0 == tallied(first).0 + tallied(second).0,
        tallied(first + second).1 == tallied(first).1 + tallied(second).1,
        tallied(first + second).2 == tallied(first).2 + tallied(second).2,
    decreases second.len(),
{
    if second.len() == 0 {
        assert(first + second =~= first);
    } else {
        assert((first + second).drop_last() =~= first + second.drop_last());
        assert((first + second).last() == second.last());
        lemma_tally_concat(first, second.drop_last());
    }
}

} // verus!
