//! An in-memory calculator over 64-bit signed integers with overflow
//! protection and a history of the operations that succeeded.

use vstd::prelude::*;
use vstd::string::StringExecFns;

verus! {

/// The decimal rendering of a 64-bit signed integer.
pub uninterp spec fn dec_i64(x: int) -> Seq<char>;

/// The decimal rendering of an index.
pub uninterp spec fn dec_usize(x: int) -> Seq<char>;

/// Relies on `to_string` for i64: the decimal rendering depends on the
/// value alone.
#[verifier::external_body]
fn i64_string(x: i64) -> (r: String)
    ensures
        r@ == dec_i64(x as int),
{
    x.to_string()
}

/// Relies on `to_string` for usize: the decimal rendering depends on the
/// value alone.
#[verifier::external_body]
fn usize_string(x: usize) -> (r: String)
    ensures
        r@ == dec_usize(x as int),
{
    x.to_string()
}

/// The supported arithmetic operations.
#[derive(Clone, Copy)]
pub enum OperationType {
    Addition,
    Subtraction,
    Multiplication,
}

/// The exact result of applying `t`, over the unbounded integers.
pub open spec fn exact_result(t: OperationType, x: i64, y: i64) -> int {
    match t {
        OperationType::Addition => x + y,
        OperationType::Subtraction => x - y,
        OperationType::Multiplication => x * y,
    }
}

/// What `perform` returns: the exact result when it fits the type, and
/// nothing on overflow.
pub open spec fn perform_spec(t: OperationType, x: i64, y: i64) -> Option<i64> {
    if exact_result(t, x, y) < i64::MIN || exact_result(t, x, y) > i64::MAX {
        None
    } else {
        Some(exact_result(t, x, y) as i64)
    }
}

/// The printed sign of an operation.
pub open spec fn sign_str(t: OperationType) -> Seq<char> {
    match t {
        OperationType::Addition => "+"@,
        OperationType::Subtraction => "-"@,
        OperationType::Multiplication => "*"@,
    }
}

impl OperationType {
    /// The sign that the history rendering prints for this operation.
    pub fn get_sign(&self) -> (r: &str)
        ensures
            r@ == sign_str(*self),
    {
        match self {
            OperationType::Addition => "+",
            OperationType::Subtraction => "-",
            OperationType::Multiplication => "*",
        }
    }

    /// Apply the operation with overflow protection.
    pub fn perform(&self, x: i64, y: i64) -> (r: Option<i64>)
        ensures
            r == perform_spec(*self, x, y),
    {
        match self {
            OperationType::Addition => x.checked_add(y),
            OperationType::Subtraction => x.checked_sub(y),
            OperationType::Multiplication => x.checked_mul(y),
        }
    }
}

/// One recorded operation.
#[derive(Clone, Copy)]
pub struct Operation {
    pub first_num: i64,
    pub second_num: i64,
    pub operation_type: OperationType,
}

/// Whether an operation's exact result fits the result type. Only such
/// operations enter the history.
pub open spec fn op_in_range(op: Operation) -> bool {
    perform_spec(op.operation_type, op.first_num, op.second_num) is Some
}

impl Operation {
    /// Record the given operands and operation.
    pub fn new(first_num: i64, second_num: i64, operation_type: OperationType) -> (r: Operation)
        ensures
            r == (Operation { first_num, second_num, operation_type }),
    {
        Operation { first_num, second_num, operation_type }
    }
}

/// One line of the history rendering.
pub open spec fn line_str(i: int, op: Operation) -> Seq<char> {
    dec_usize(i) + ": "@ + dec_i64(op.first_num as int) + " "@ + sign_str(op.operation_type) + " "@
        + dec_i64(op.second_num as int) + " = "@ + dec_i64(
        exact_result(op.operation_type, op.first_num, op.second_num),
    ) + "\n"@
}

/// The rendering of the first `n` history entries.
pub open spec fn hist_text(s: Seq<Operation>, n: int) -> Seq<char>
    decreases n,
{
    if n <= 0 {
        Seq::empty()
    } else {
        hist_text(s, n - 1) + line_str(n - 1, s[n - 1])
    }
}

/// A calculator holding the history of its successful operations.
pub struct Calculator {
    pub history: Vec<Operation>,
}

impl Calculator {
    /// Every stored operation fits the result type, so re-performing it
    /// cannot fail.
    pub open spec fn wf(&self) -> bool {
        forall|i: int| 0 <= i < self.history@.len() ==> op_in_range(#[trigger] self.history@[i])
    }

    /// A calculator with empty history.
    pub fn new() -> (r: Calculator)
        ensures
            r.history@.len() == 0,
            r.wf(),
    {
        Calculator { history: Vec::new() }
    }

    /// Apply an operation; a successful one also enters the history.
    fn execute_and_store(&mut self, x: i64, y: i64, op_type: OperationType) -> (r: Option<i64>)
        ensures
            r == perform_spec(op_type, x, y),
            match r {
                Some(_) => final(self).history@ == old(self).history@.push(
                    Operation { first_num: x, second_num: y, operation_type: op_type },
                ),
                None => final(self).history@ == old(self).history@,
            },
            old(self).wf() ==> final(self).wf(),
    {
        let result = op_type.perform(x, y);
        if result.is_some() {
            let operation = Operation::new(x, y, op_type);
            self.history.push(operation);
        }
        result
    }

    /// Add, recording the operation on success; `None` on overflow.
    pub fn addition(&mut self, x: i64, y: i64) -> (r: Option<i64>)
        ensures
            r == perform_spec(OperationType::Addition, x, y),
            match r {
                Some(_) => final(self).history@ == old(self).history@.push(
                    Operation { first_num: x, second_num: y, operation_type: OperationType::Addition },
                ),
                None => final(self).history@ == old(self).history@,
            },
            old(self).wf() ==> final(self).wf(),
    {
        self.execute_and_store(x, y, OperationType::Addition)
    }

    /// Subtract, recording the operation on success; `None` on overflow.
    pub fn subtraction(&mut self, x: i64, y: i64) -> (r: Option<i64>)
        ensures
            r == perform_spec(OperationType::Subtraction, x, y),
            match r {
                Some(_) => final(self).history@ == old(self).history@.push(
                    Operation {
                        first_num: x,
                        second_num: y,
                        operation_type: OperationType::Subtraction,
                    },
                ),
                None => final(self).history@ == old(self).history@,
            },
            old(self).wf() ==> final(self).wf(),
    {
        self.execute_and_store(x, y, OperationType::Subtraction)
    }

    /// Multiply, recording the operation on success; `None` on overflow.
    pub fn multiplication(&mut self, x: i64, y: i64) -> (r: Option<i64>)
        ensures
            r == perform_spec(OperationType::Multiplication, x, y),
            match r {
                Some(_) => final(self).history@ == old(self).history@.push(
                    Operation {
                        first_num: x,
                        second_num: y,
                        operation_type: OperationType::Multiplication,
                    },
                ),
                None => final(self).history@ == old(self).history@,
            },
            old(self).wf() ==> final(self).wf(),
    {
        self.execute_and_store(x, y, OperationType::Multiplication)
    }

    /// Render the history, one numbered line per operation.
    pub fn show_history(&self) -> (r: String)
        requires
            self.wf(),
        ensures
            r@ == hist_text(self.history@, self.history@.len() as int),
    {
        let mut out = String::new();
        let mut i: usize = 0;
        while i < self.history.len()
            invariant
                self.wf(),
                i <= self.history@.len(),
                out@ == hist_text(self.history@, i as int),
            decreases self.history@.len() - i,
        {
            let op = &self.history[i];
            let result: i64 = match op.operation_type.perform(op.first_num, op.second_num) {
                Some(v) => v,
                None => {
                    proof {
                        assert(op_in_range(self.history@[i as int]));
                        assert(false);
                    }
                    unreached()
                },
            };
            let mut line = usize_string(i);
            line.append(": ");
            line.append(i64_string(op.first_num).as_str());
            line.append(" ");
            line.append(op.operation_type.get_sign());
            line.append(" ");
            line.append(i64_string(op.second_num).as_str());
            line.append(" = ");
            line.append(i64_string(result).as_str());
            line.append("\n");
            out.append(line.as_str());
            proof {
                assert(out@ =~= hist_text(self.history@, i + 1));
            }
            i = i + 1;
        }
        out
    }

    /// Re-apply the operation at `operation_index`, recording the repeat as
    /// a new entry; `None` on an invalid index or on overflow.
    pub fn repeat(&mut self, operation_index: usize) -> (r: Option<i64>)
        ensures
            match r {
                Some(v) => operation_index < old(self).history@.len() && Some(v) == perform_spec(
                    old(self).history@[operation_index as int].operation_type,
                    old(self).history@[operation_index as int].first_num,
                    old(self).history@[operation_index as int].second_num,
                ) && final(self).history@ == old(self).history@.push(
                    old(self).history@[operation_index as int],
                ),
                None => final(self).history@ == old(self).history@ && (operation_index
                    >= old(self).history@.len() || !op_in_range(
                    old(self).history@[operation_index as int],
                )),
            },
            old(self).wf() ==> final(self).wf(),
    {
        if operation_index < self.history.len() {
            let op = &self.history[operation_index];
            let x = op.first_num;
            let y = op.second_num;
            let op_type = op.operation_type;
            proof {
                assert(old(self).history@[operation_index as int] == (Operation {
                    first_num: x,
                    second_num: y,
                    operation_type: op_type,
                }));
            }
            self.execute_and_store(x, y, op_type)
        } else {
            None
        }
    }

    /// Forget every recorded operation.
    pub fn clear_history(&mut self)
        ensures
            final(self).history@.len() == 0,
            final(self).wf(),
    {
        self.history.clear();
    }
}

} // verus!
