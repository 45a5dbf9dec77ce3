//! Choosing a transformation by its name and applying it.

use vstd::prelude::*;
use crate::parallel::{parallel_process, parallel_processed};
use crate::sorting::{is_sort_of, lemma_sort_keeps_length, sort};
use crate::text::same_text;
use crate::transform::{double, doubled, reverse, square, squared, sum, summed};

verus! {

/// Why a transformation could not be applied.
#[derive(Clone, Copy, Debug, PartialEq, Eq, Structural)]
pub enum TransformError {
    /// The operation name is none of the recognized ones. The fault lies
    /// with the request, not with the service.
    UnknownOperation,
}

/// The six transformations. The set is fixed and closed.
#[derive(Clone, Copy, Debug, PartialEq, Eq, Structural)]
pub enum Operation {
    Sort,
    Reverse,
    Double,
    Square,
    Sum,
    ParallelProcess,
}

impl Operation {
    /// The name a request selects this operation by.
    pub open spec fn tag(self) -> Seq<char> {
        match self {
            Operation::Sort => "sort"@,
            Operation::Reverse => "reverse"@,
            Operation::Double => "double"@,
            Operation::Square => "square"@,
            Operation::Sum => "sum"@,
            Operation::ParallelProcess => "parallel_process"@,
        }
    }

    /// The operation that a name selects, if any. Names are matched exactly.
    pub open spec fn recognized(name: Seq<char>) -> Option<Operation> {
        if name == "sort"@ {
            Some(Operation::Sort)
        } else if name == "reverse"@ {
            Some(Operation::Reverse)
        } else if name == "double"@ {
            Some(Operation::Double)
        } else if name == "square"@ {
            Some(Operation::Square)
        } else if name == "sum"@ {
            Some(Operation::Sum)
        } else if name == "parallel_process"@ {
            Some(Operation::ParallelProcess)
        } else {
            None
        }
    }

    /// Whether `output` is what this operation returns for `input`.
    pub open spec fn produces(self, input: Seq<i32>, output: Seq<i32>) -> bool {
        match self {
            Operation::Sort => is_sort_of(input, output),
            Operation::Reverse => output == input.reverse(),
            Operation::Double => output == doubled(input),
            Operation::Square => output == squared(input),
            Operation::Sum => output == summed(input),
            Operation::ParallelProcess => output == parallel_processed(input),
        }
    }

    /// How long the result is for an input of `n` elements: one element for
    /// `Sum`, `n` for every other operation.
    pub open spec fn result_len(self, n: nat) -> nat {
        match self {
            Operation::Sum => 1,
            _ => n,
        }
    }

    /// Reads an operation name.
    pub fn parse(name: &str) -> (op: Option<Operation>)
        ensures
            op == Operation::recognized(name@),
    {
        if same_text(name, "sort") {
            Some(Operation::Sort)
        } else if same_text(name, "reverse") {
            Some(Operation::Reverse)
        } else if same_text(name, "double") {
            Some(Operation::Double)
        } else if same_text(name, "square") {
            Some(Operation::Square)
        } else if same_text(name, "sum") {
            Some(Operation::Sum)
        } else if same_text(name, "parallel_process") {
            Some(Operation::ParallelProcess)
        } else {
            None
        }
    }

    /// Applies this operation. The input is left as it is; the result is a
    /// new sequence.
    pub fn run(self, data: &Vec<i32>) -> (out: Vec<i32>)
        ensures
            self.produces(data@, out@),
            out@.len() == self.result_len(data@.len()),
    {
        let out = match self {
            Operation::Sort => sort(data),
            Operation::Reverse => reverse(data),
            Operation::Double => double(data),
            Operation::Square => square(data),
            Operation::Sum => sum(data),
            Operation::ParallelProcess => parallel_process(data),
        };
        proof {
            lemma_result_length(self, data@, out@);
        }
        out
    }
}

/// Applies the operation that `operation` names to `data`.
///
/// Succeeds exactly when the name is one of the six recognized ones, and
/// then returns what that operation produces. Any other name is refused
/// with `UnknownOperation`, whatever the data.
pub fn apply(operation: &str, data: &Vec<i32>) -> (outcome: Result<Vec<i32>, TransformError>)
    ensures
        match Operation::recognized(operation@) {
            Some(op) => outcome is Ok && op.produces(data@, outcome->Ok_0@)
                && outcome->Ok_0@.len() == op.result_len(data@.len()),
            None => outcome == Err::<Vec<i32>, TransformError>(TransformError::UnknownOperation),
        },
{
    match Operation::parse(operation) {
        Some(op) => Ok(op.run(data)),
        None => Err(TransformError::UnknownOperation),
    }
}

/// Every result has the length its operation calls for: the input's length,
/// or one for `Sum`.
pub proof fn lemma_result_length(op: Operation, input: Seq<i32>, output: Seq<i32>)
    requires
        op.produces(input, output),
    ensures
        output.len() == op.result_len(input.len()),
{
    if op == Operation::Sort {
        lemma_sort_keeps_length(input, output);
    }
}

/// Each operation is selected by its own name, and by no other operation's.
pub proof fn lemma_tag_selects_operation(op: Operation)
    ensures
        Operation::recognized(op.tag()) == Some(op),
{
    reveal_strlit("sort");
    reveal_strlit("reverse");
    reveal_strlit("double");
    reveal_strlit("square");
    reveal_strlit("sum");
    reveal_strlit("parallel_process");
    let t = op.tag();
    match op {
        Operation::Sort => {},
        Operation::Reverse => {
            assert(t.len() != "sort"@.len());
        },
        Operation::Double => {
            assert(t[0] != "sort"@[0]);
            assert(t[0] != "reverse"@[0]);
        },
        Operation::Square => {
            assert(t[1] != "sort"@[1]);
            assert(t[0] != "reverse"@[0]);
            assert(t[0] != "double"@[0]);
        },
        Operation::Sum => {
            assert(t.len() != "sort"@.len());
            assert(t.len() != "reverse"@.len());
            assert(t.len() != "double"@.len());
            assert(t.len() != "square"@.len());
        },
        Operation::ParallelProcess => {
            assert(t.len() != "sort"@.len());
            assert(t.len() != "reverse"@.len());
            assert(t.len() != "double"@.len());
            assert(t.len() != "square"@.len());
            assert(t.len() != "sum"@.len());
        },
    }
}

/// Reversing twice gives back the sequence one started with.
pub proof fn lemma_reverse_twice(s: Seq<i32>)
    ensures
        s.reverse().reverse() == s,
{
}

/// Whatever the operation returns for an input, it returns for it every
/// time: two results for the same input are the same sequence.
pub proof fn lemma_result_is_determined(op: Operation, input: Seq<i32>, a: Seq<i32>, b: Seq<i32>)
    requires
        op.produces(input, a),
        op.produces(input, b),
    ensures
        a == b,
{
    if op == Operation::Sort {
        crate::sorting::lemma_sort_is_unique(input, a, b);
    }
}

} // verus!
