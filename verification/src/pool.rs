//! The size of the worker pool.

use crate::report::decimal;
use vstd::prelude::*;
use vstd::string::*;

verus! {

/// How a batch is to be spread over workers.
#[derive(Clone, Copy, Debug, PartialEq, Eq, Structural)]
pub struct SchedulerConfig {
    /// The most workers wanted at once; 0 asks for as many as the machine
    /// has execution units.
    pub worker_limit: usize,
}

/// The number of workers to set the pool to, or `None` where the pool keeps
/// the size of the machine: a limit of 0, or one that the machine does not
/// exceed, leaves the pool alone; a smaller limit is honoured, though never
/// with more workers than there are jobs.
pub open spec fn pool_threads(worker_limit: nat, hardware_units: nat, queued: nat) -> Option<nat> {
    if worker_limit == 0 || worker_limit >= hardware_units {
        None
    } else if worker_limit <= queued {
        Some(worker_limit)
    } else {
        Some(queued)
    }
}

/// The number of workers that a batch runs on.
pub open spec fn pool_size(worker_limit: nat, hardware_units: nat, queued: nat) -> nat {
    match pool_threads(worker_limit, hardware_units, queued) {
        None => hardware_units,
        Some(threads) => threads,
    }
}

/// `c` is a decimal digit.
pub open spec fn is_digit(c: char) -> bool {
    '0' <= c <= '9'
}

/// The value of a string of decimal digits.
pub open spec fn digits_value(digits: Seq<char>) -> nat
    decreases digits.len(),
{
    if digits.len() == 0 {
        0
    } else {
        digits_value(digits.drop_last()) * 10 + (digits.last() as nat - '0' as nat) as nat
    }
}

/// A number text without its sign: one leading `+` is allowed and taken off.
pub open spec fn unsigned_part(text: Seq<char>) -> Seq<char> {
    if text.len() > 0 && text[0] == '+' {
        text.skip(1)
    } else {
        text
    }
}

/// `text` is a number that a `usize` can hold: after an optional `+`, one or
/// more decimal digits and nothing else.
pub open spec fn is_limit(text: Seq<char>) -> bool {
    let digits = unsigned_part(text);
    &&& digits.len() > 0
    &&& forall|i: int| 0 <= i < digits.len() ==> is_digit(#[trigger] digits[i])
    &&& digits_value(digits) <= usize::MAX
}

/// The worker limit that a text stands for: its number, and 0 for anything
/// that is no such number.
pub open spec fn parsed_limit(text: Seq<char>) -> nat {
    if is_limit(text) {
        digits_value(unsigned_part(text))
    } else {
        0
    }
}

/// The value of a digit string is at least that of each of its beginnings.
pub proof fn lemma_digits_value_grows(digits: Seq<char>, n: int)
    requires
        0 <= n <= digits.len(),
    ensures
        digits_value(digits.take(n)) <= digits_value(digits),
    decreases digits.len() - n,
{
    if n < digits.len() {
        lemma_digits_value_grows(digits, n + 1);
        assert(digits.take(n + 1).drop_last() == digits.take(n));
    } else {
        assert(digits.take(n) == digits);
    }
}

/// A number written in decimal is made of digits only and has the number as
/// its value.
pub proof fn lemma_decimal_is_digits(n: nat)
    ensures
        decimal(n).len() > 0,
        forall|i: int| 0 <= i < decimal(n).len() ==> is_digit(#[trigger] decimal(n)[i]),
        decimal(n)[0] != '+',
        digits_value(decimal(n)) == n,
    decreases n,
{
    reveal_strlit("0123456789");
    if n < 10 {
        assert(decimal(n).drop_last() =~= Seq::<char>::empty());
        assert(digits_value(decimal(n).drop_last()) == 0);
    } else {
        lemma_decimal_is_digits(n / 10);
        assert(decimal(n).drop_last() =~= decimal(n / 10));
    }
}

/// A limit that is written in decimal reads back as itself.
pub proof fn lemma_limit_reads_back(n: nat)
    requires
        n <= usize::MAX,
    ensures
        parsed_limit(decimal(n)) == n,
{
    lemma_decimal_is_digits(n);
}

/// Calls `num_cpus::get`, the number of execution units that this process may
/// use. Its documentation promises at least 1; the number itself depends on
/// the machine and on the limits set for the process.
#[verifier::external_body]
fn hardware_units() -> (units: usize)
    ensures
        units >= 1,
{
    num_cpus::get()
}

impl SchedulerConfig {
    /// A configuration with the given limit.
    pub fn new(worker_limit: usize) -> (config: Self)
        ensures
            config.worker_limit == worker_limit,
    {
        SchedulerConfig { worker_limit }
    }

    /// Reads the limit from a text such as a command line gives it. A text
    /// that is no number, or a number too large for the machine, counts as 0.
    pub fn parse(text: &str) -> (config: Self)
        ensures
            config.worker_limit == parsed_limit(text@),
    {
        let ghost digits = unsigned_part(text@);
        if !text.is_ascii() {
            proof {
                let at = choose|i: int|
                    0 <= i < text@.len() && !('\0' <= #[trigger] text@[i] <= '\u{7f}');
                if text@[0] == '+' {
                    assert(!is_digit(digits[at - 1]));
                } else {
                    assert(!is_digit(digits[at]));
                }
            }
            return SchedulerConfig { worker_limit: 0 };
        }
        let bytes = text.as_bytes();
        proof {
            is_ascii_spec_bytes(text);
        }
        let n = bytes.len();
        let start: usize = if n > 0 && bytes[0] == 43u8 {
            1
        } else {
            0
        };
        assert(digits == text@.skip(start as int));
        if start == n {
            return SchedulerConfig { worker_limit: 0 };
        }
        let mut value: usize = 0;
        let mut i: usize = start;
        while i < n
            invariant
                n == text@.len(),
                n == bytes@.len(),
                is_ascii(text),
                forall|k: int| 0 <= k < n ==> bytes@[k] == #[trigger] text@[k] as u8,
                start <= i <= n,
                digits == text@.skip(start as int),
                digits == unsigned_part(text@),
                value == digits_value(digits.take(i - start)),
                forall|k: int| 0 <= k < i - start ==> is_digit(#[trigger] digits[k]),
            decreases n - i,
        {
            let byte = bytes[i];
            let ghost c = text@[i as int];
            assert(c == digits[i - start]);
            assert('\0' <= c <= '\u{7f}');
            if !(48u8 <= byte && byte <= 57u8) {
                assert(!is_digit(digits[i - start]));
                return SchedulerConfig { worker_limit: 0 };
            }
            let d: usize = (byte - 48u8) as usize;
            proof {
                let longer = digits.take(i - start + 1);
                lemma_digits_value_grows(digits, i - start + 1);
                assert(longer.drop_last() == digits.take(i - start));
                assert(longer.last() == c);
                assert(digits_value(longer) == value * 10 + d);
            }
            let tenfold = match value.checked_mul(10) {
                Some(t) => t,
                None => {
                    return SchedulerConfig { worker_limit: 0 };
                },
            };
            value = match tenfold.checked_add(d) {
                Some(v) => v,
                None => {
                    return SchedulerConfig { worker_limit: 0 };
                },
            };
            i = i + 1;
        }
        proof {
            assert(digits.take(n - start) == digits);
        }
        SchedulerConfig { worker_limit: value }
    }

    /// The number of workers to set the pool to for `queued` jobs on a machine
    /// with `hardware_units` execution units, `None` to leave the pool at the
    /// size of the machine.
    pub fn threads(&self, hardware_units: usize, queued: usize) -> (threads: Option<usize>)
        ensures
            match threads {
                Some(n) => pool_threads(
                    self.worker_limit as nat,
                    hardware_units as nat,
                    queued as nat,
                ) == Some(n as nat),
                None => pool_threads(
                    self.worker_limit as nat,
                    hardware_units as nat,
                    queued as nat,
                ) is None,
            },
    {
        if self.worker_limit == 0 || self.worker_limit >= hardware_units {
            None
        } else if self.worker_limit <= queued {
            Some(self.worker_limit)
        } else {
            Some(queued)
        }
    }

    /// The number of workers that `queued` jobs run on, on a machine with
    /// `hardware_units` execution units. It never exceeds the machine.
    pub fn workers(&self, hardware_units: usize, queued: usize) -> (workers: usize)
        ensures
            workers == pool_size(self.worker_limit as nat, hardware_units as nat, queued as nat),
            workers <= hardware_units,
            self.worker_limit == 0 ==> workers == hardware_units,
    {
        match self.threads(hardware_units, queued) {
            Some(n) => n,
            None => hardware_units,
        }
    }

    /// The number of workers to set the pool to for `queued` jobs on this
    /// machine, `None` to leave the pool at the size of the machine.
    ///
    /// The machine is asked once; whatever it answers, the result follows
    /// from it as in [`SchedulerConfig::threads`].
    pub fn threads_here(&self, queued: usize) -> (threads: Option<usize>)
        ensures
            exists|units: usize|
                units >= 1 && match threads {
                    Some(n) => #[trigger] pool_threads(
                        self.worker_limit as nat,
                        units as nat,
                        queued as nat,
                    ) == Some(n as nat),
                    None => pool_threads(self.worker_limit as nat, units as nat, queued as nat)
                        is None,
                },
            self.worker_limit == 0 ==> threads is None,
            threads matches Some(n) ==> n <= self.worker_limit && n <= queued,
    {
        let units = hardware_units();
        self.threads(units, queued)
    }
}

} // verus!
