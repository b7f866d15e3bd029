//! The bridge from log records to the host's line printer: which records
//! pass, which fixed format string each one is printed with, and how a
//! record's location and message are rendered into the host's buffer.
use vstd::prelude::*;
use vstd::slice::slice_subrange;
use vstd::string::StringSliceAdditionalSpecFns;
use crate::formatter::{advance, capacity, lemma_write_twice, written_mem, written_state, FormatterState, RawFormatter};

verus! {

/// Severity of a log record, most severe first.
#[derive(Clone, Copy, Debug, PartialEq, Eq, Structural)]
pub enum Level {
    Error,
    Warn,
    Info,
    Debug,
    Trace,
}

/// Severity rank: 1 for `Error` up to 5 for `Trace`; a lower rank is more
/// severe.
pub open spec fn level_rank(l: Level) -> int {
    match l {
        Level::Error => 1,
        Level::Warn => 2,
        Level::Info => 3,
        Level::Debug => 4,
        Level::Trace => 5,
    }
}

fn rank_of(l: Level) -> (r: u8)
    ensures
        r == level_rank(l),
{
    match l {
        Level::Error => 1,
        Level::Warn => 2,
        Level::Info => 3,
        Level::Debug => 4,
        Level::Trace => 5,
    }
}

/// The least severe level that is printed unless configured otherwise.
pub fn max_log_level() -> (r: Level)
    ensures
        r == Level::Warn,
{
    Level::Warn
}

/// The host's message priorities, `KERN_EMERG` to `KERN_DEBUG`.
#[derive(Clone, Copy, Debug, PartialEq, Eq, Structural)]
pub enum KernLevel {
    Emerg,
    Alert,
    Crit,
    Error,
    Warning,
    Notice,
    Info,
    Debug,
}

/// The ASCII digit of a host priority, '0' to '7'.
pub open spec fn kern_digit(k: KernLevel) -> u8 {
    match k {
        KernLevel::Emerg => 48,
        KernLevel::Alert => 49,
        KernLevel::Crit => 50,
        KernLevel::Error => 51,
        KernLevel::Warning => 52,
        KernLevel::Notice => 53,
        KernLevel::Info => 54,
        KernLevel::Debug => 55,
    }
}

/// The host's priority marker: SOH, the digit, NUL.
pub fn kern_prefix(k: KernLevel) -> (r: [u8; 3])
    ensures
        r@ == seq![1u8, kern_digit(k), 0u8],
{
    let d: u8 = match k {
        KernLevel::Emerg => 48,
        KernLevel::Alert => 49,
        KernLevel::Crit => 50,
        KernLevel::Error => 51,
        KernLevel::Warning => 52,
        KernLevel::Notice => 53,
        KernLevel::Info => 54,
        KernLevel::Debug => 55,
    };
    let r: [u8; 3] = [1u8, d, 0u8];
    assert(r@ =~= seq![1u8, kern_digit(k), 0u8]);
    r
}

/// The length of every fixed format string.
pub const LENGTH: usize = 10;

/// The template after the priority: `%s: %pA` and NUL, that is the module
/// name and the record, rendered by a callback.
pub open spec fn format_suffix() -> Seq<u8> {
    seq![37u8, 115u8, 58u8, 32u8, 37u8, 112u8, 65u8, 0u8]
}

/// The fixed format string for a priority marker: its first two bytes, then
/// the template.
pub fn generate(prefix: &[u8; 3]) -> (r: [u8; LENGTH])
    requires
        prefix@[0] == 1,
        48 <= prefix@[1] <= 55,
        prefix@[2] == 0,
    ensures
        r@ == prefix@.take(2) + format_suffix(),
{
    let r: [u8; LENGTH] = [prefix[0], prefix[1], 37u8, 115u8, 58u8, 32u8, 37u8, 112u8, 65u8, 0u8];
    assert(r@ =~= prefix@.take(2) + format_suffix());
    r
}

/// The fixed format string of a host priority.
pub fn format_string(k: KernLevel) -> (r: [u8; LENGTH])
    ensures
        r@ == seq![1u8, kern_digit(k)] + format_suffix(),
{
    let p = kern_prefix(k);
    let r = generate(&p);
    assert(p@.take(2) =~= seq![1u8, kern_digit(k)]);
    r
}

/// The host priority a record of each level is printed with; `Trace` is
/// printed as `Debug`.
pub open spec fn kern_level_of(l: Level) -> KernLevel {
    match l {
        Level::Error => KernLevel::Error,
        Level::Warn => KernLevel::Warning,
        Level::Info => KernLevel::Info,
        Level::Debug => KernLevel::Debug,
        Level::Trace => KernLevel::Debug,
    }
}

/// The logger that hands records to the host's line printer, with the
/// least severe level it lets through.
#[derive(Clone, Copy, Debug, PartialEq, Eq, Structural)]
pub struct PrintKLogger {
    pub max_level: Level,
}

impl PrintKLogger {
    /// A logger with the default threshold.
    pub fn new() -> (r: Self)
        ensures
            r.max_level == Level::Warn,
    {
        PrintKLogger { max_level: max_log_level() }
    }

    /// Whether the logger lets a record of `level` through.
    pub open spec fn passes(&self, level: Level) -> bool {
        level_rank(level) <= level_rank(self.max_level)
    }

    /// Whether a record of `level` is printed: it is at least as severe as
    /// the threshold.
    pub fn enabled(&self, level: Level) -> (r: bool)
        ensures
            r == self.passes(level),
    {
        rank_of(level) <= rank_of(self.max_level)
    }

    /// The one call to the host printer that a record of `level` causes:
    /// the format string it is printed with, or `None` where the record is
    /// below the threshold and nothing is printed.
    pub fn log(&self, level: Level) -> (r: Option<[u8; LENGTH]>)
        ensures
            r is Some <==> self.passes(level),
            r matches Some(f) ==> f@ == seq![1u8, kern_digit(kern_level_of(level))]
                + format_suffix(),
    {
        if self.enabled(level) {
            let k = match level {
                Level::Error => KernLevel::Error,
                Level::Warn => KernLevel::Warning,
                Level::Info => KernLevel::Info,
                Level::Debug => KernLevel::Debug,
                Level::Trace => KernLevel::Debug,
            };
            Some(format_string(k))
        } else {
            None
        }
    }
}

#[verifier::external_type_specification]
#[verifier::external_body]
pub struct ExSetLoggerError(log::SetLoggerError);

/// Relies on log::set_logger: installs the process-wide logger unless one
/// was installed before, which it reports as an error.
#[verifier::external_body]
fn install_logger<L: log::Log>(logger: &'static L) -> (r: Result<(), log::SetLoggerError>) {
    log::set_logger(logger)
}

/// Relies on log::set_max_level: sets the process-wide level filter to
/// `level` and the levels more severe.
#[verifier::external_body]
fn set_max_level(level: Level) {
    log::set_max_level(
        match level {
            Level::Error => log::LevelFilter::Error,
            Level::Warn => log::LevelFilter::Warn,
            Level::Info => log::LevelFilter::Info,
            Level::Debug => log::LevelFilter::Debug,
            Level::Trace => log::LevelFilter::Trace,
        },
    )
}

/// Installs `logger` as the process-wide logger and sets the level filter
/// to the default threshold. A logger installed before stays, and the
/// second attempt changes nothing.
pub fn init_logging<L: log::Log>(logger: &'static L) {
    match install_logger(logger) {
        Ok(()) => set_max_level(max_log_level()),
        Err(_) => {},
    }
}

/// What follows the last '/' of a path: the whole path where it has none.
pub open spec fn file_tail(f: Seq<u8>) -> Seq<u8>
    decreases f.len(),
{
    if f.len() == 0 {
        f
    } else if f.last() == 47 {
        Seq::empty()
    } else {
        file_tail(f.drop_last()).push(f.last())
    }
}

/// The decimal digits of `n` in ASCII, without leading zeros.
pub open spec fn decimal(n: nat) -> Seq<u8>
    decreases n,
{
    if n < 10 {
        seq![(48 + n) as u8]
    } else {
        decimal(n / 10).push((48 + n % 10) as u8)
    }
}

/// The bytes of an optional string; none where it is absent.
pub open spec fn opt_bytes(s: Option<&str>) -> Seq<u8> {
    match s {
        Some(t) => t.spec_bytes(),
        None => Seq::empty(),
    }
}

/// What the host's callback renders for a record:
/// `<file name>:<line> <message>`, the file name without its directories,
/// an absent file as empty and an absent line as 0.
pub open spec fn record_text(file: Option<&str>, line: Option<u32>, message: &str) -> Seq<u8> {
    let n: nat = match line {
        Some(l) => l as nat,
        None => 0,
    };
    file_tail(opt_bytes(file)) + seq![58u8] + decimal(n) + seq![32u8] + message.spec_bytes()
}

/// The index where the last segment of a path starts.
fn tail_start(f: &[u8]) -> (k: usize)
    ensures
        k <= f@.len(),
        f@.subrange(k as int, f@.len() as int) == file_tail(f@),
{
    let mut k: usize = f.len();
    assert(f@.subrange(0, k as int) =~= f@);
    assert(f@.subrange(k as int, k as int) =~= Seq::<u8>::empty());
    while k > 0 && f[k - 1] != 47u8
        invariant
            k <= f@.len(),
            file_tail(f@) == file_tail(f@.subrange(0, k as int)) + f@.subrange(
                k as int,
                f@.len() as int,
            ),
        decreases k,
    {
        let ghost pre = f@.subrange(0, k as int);
        assert(pre.drop_last() =~= f@.subrange(0, k - 1));
        assert(f@.subrange(k - 1, f@.len() as int) =~= seq![f@[k - 1]] + f@.subrange(
            k as int,
            f@.len() as int,
        ));
        k = k - 1;
    }
    proof {
        let pre = f@.subrange(0, k as int);
        if k == 0 {
            assert(pre =~= Seq::<u8>::empty());
        }
        assert(file_tail(pre) =~= Seq::<u8>::empty());
        assert(file_tail(f@) =~= f@.subrange(k as int, f@.len() as int));
    }
    k
}

/// Writes the decimal digits of `n`.
fn write_decimal(w: &mut RawFormatter, buf: &mut [u8], n: u32)
    requires
        old(w).wf(),
        old(buf)@.len() == capacity(old(w)@),
    ensures
        final(w).wf(),
        final(w)@ == written_state(old(w)@, decimal(n as nat).len()),
        final(buf)@ == written_mem(old(w)@, old(buf)@, decimal(n as nat)),
    decreases n,
{
    let ghost s0 = w@;
    let ghost m0 = buf@;
    if n >= 10 {
        write_decimal(w, buf, n / 10);
    }
    let d: [u8; 1] = [48u8 + (n % 10) as u8];
    w.write_bytes(buf, &d);
    proof {
        assert(d@ =~= seq![(48 + n % 10) as u8]);
        if n >= 10 {
            lemma_write_twice(s0, m0, decimal((n / 10) as nat), d@);
            assert(decimal((n / 10) as nat) + d@ =~= decimal(n as nat));
        } else {
            assert(d@ =~= decimal(n as nat));
        }
    }
}

/// Renders a record for the host's `%pA` callback into the buffer
/// `[beg, end)`, which `buf` holds: the file name without its directories,
/// ':', the line, ' ' and the message. Returns the cursor after all of it,
/// which lies past `end` where the text did not fit.
pub fn rust_fmt_argument(
    buf: &mut [u8],
    beg: usize,
    end: usize,
    file: Option<&str>,
    line: Option<u32>,
    message: &str,
) -> (pos: usize)
    requires
        old(buf)@.len() == capacity(FormatterState { beg: beg as nat, pos: beg as nat, end: end as nat }),
    ensures
        pos == advance(beg as nat, record_text(file, line, message).len()),
        final(buf)@ == written_mem(
            FormatterState { beg: beg as nat, pos: beg as nat, end: end as nat },
            old(buf)@,
            record_text(file, line, message),
        ),
{
    let mut w = RawFormatter::from_ptrs(beg, end);
    let ghost s0 = w@;
    let ghost m0 = buf@;
    let name: &[u8] = match file {
        Some(f) => f.as_bytes(),
        None => &[],
    };
    assert(name@ == opt_bytes(file));
    let k = tail_start(name);
    let tail = slice_subrange(name, k, name.len());
    w.write_bytes(buf, tail);
    let ghost acc = tail@;
    let colon: [u8; 1] = [58u8];
    w.write_bytes(buf, &colon);
    proof {
        lemma_write_twice(s0, m0, acc, colon@);
        acc = acc + colon@;
    }
    let n: u32 = match line {
        Some(l) => l,
        None => 0,
    };
    write_decimal(&mut w, buf, n);
    proof {
        lemma_write_twice(s0, m0, acc, decimal(n as nat));
        acc = acc + decimal(n as nat);
    }
    let space: [u8; 1] = [32u8];
    w.write_bytes(buf, &space);
    proof {
        lemma_write_twice(s0, m0, acc, space@);
        acc = acc + space@;
    }
    w.write_str(buf, message);
    proof {
        lemma_write_twice(s0, m0, acc, message.spec_bytes());
        acc = acc + message.spec_bytes();
        assert(colon@ =~= seq![58u8]);
        assert(space@ =~= seq![32u8]);
        assert(acc =~= record_text(file, line, message));
    }
    w.pos()
}

} // verus!
