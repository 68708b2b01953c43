//! The read statistics counter.

use crate::level::Level;
use crate::line::{
    build_compact_data, build_compact_header, build_verbose_data, build_verbose_header,
    compact_data, compact_header, verbose_data, verbose_header,
};
use crate::sink::LogSink;
use vstd::arithmetic::div_mod::{
    lemma_add_mod_noop, lemma_mod_add_multiples_vanish, lemma_mod_bound, lemma_small_mod,
};
use vstd::prelude::*;
use vstd::string::StringExecFns;

verus! {

/// Which byte count a read records, fixed when a counter is built.
///
/// Under `Request` a read is recorded with the number of bytes asked for,
/// whether or not they all arrive — useful for diagnosing over-fetching —
/// and lines use the compact format. Under `Delivery` a read is recorded
/// with the number of bytes actually delivered, keeping the requested
/// size as a diagnostic field — true throughput accounting — and lines
/// use the verbose format. The two are never mixed in one counter.
#[derive(Clone, Copy, Debug, PartialEq, Eq, Structural)]
pub enum Policy {
    Request,
    Delivery,
}

/// The header line a counter emits at construction, by policy.
pub open spec fn header_line(policy: Policy, tag: Seq<char>) -> Seq<char> {
    match policy {
        Policy::Request => compact_header(),
        Policy::Delivery => verbose_header(tag),
    }
}

/// The data line a counter emits for one read, by policy. `count` and
/// `total` are the counter values after the read was counted.
pub open spec fn data_line(
    policy: Policy,
    tag: Seq<char>,
    begin: nat,
    length: nat,
    request_length: nat,
    count: nat,
    total: nat,
) -> Seq<char> {
    match policy {
        Policy::Request => compact_data(tag, begin, length, count, total),
        Policy::Delivery => verbose_data(tag, begin, length, request_length, count, total),
    }
}

/// One more than the largest value a counter can hold: counters wrap
/// silently at this modulus rather than fail.
pub open spec fn wrap_modulus() -> nat {
    usize::MAX as nat + 1
}

/// Addition wrapping at the counter width.
pub open spec fn wrap_add(a: nat, b: nat) -> nat {
    if a + b <= usize::MAX {
        a + b
    } else {
        (a + b - usize::MAX - 1) as nat
    }
}

/// The sum of the effective lengths of a sequence of records, each a
/// `(begin, length, request_length)` triple.
pub open spec fn total_recorded(records: Seq<(usize, usize, usize)>) -> nat
    decreases records.len(),
{
    if records.len() == 0 {
        0
    } else {
        total_recorded(records.drop_last()) + records.last().1 as nat
    }
}

/// Wrapped addition agrees with addition modulo the counter width.
proof fn lemma_wrap_add_mod(s: nat, b: nat)
    requires
        b <= usize::MAX,
    ensures
        wrap_add(s % wrap_modulus(), b) == (s + b) % wrap_modulus(),
{
    let m = wrap_modulus();
    lemma_mod_bound(s as int, m as int);
    lemma_small_mod(b, m);
    lemma_add_mod_noop(s as int, b as int, m as int);
    let x = s % m;
    if x + b <= usize::MAX {
        lemma_small_mod((x + b) as nat, m);
    } else {
        lemma_small_mod((x + b - m) as nat, m);
        lemma_mod_add_multiples_vanish((x + b - m) as int, m as int);
    }
}

/// Law: as long as fewer reads have been recorded than the counter can
/// hold, `read_count` equals exactly the number of recorded reads — after
/// N reads it is N.
pub proof fn lemma_read_count_exact<S: LogSink>(c: &ReadStatsLogger<S>)
    requires
        c.wf(),
        c.recorded().len() <= usize::MAX,
    ensures
        c.count_spec() as nat == c.recorded().len(),
{
    lemma_small_mod(c.recorded().len(), wrap_modulus());
}

/// Law: as long as the recorded lengths sum below the counter width,
/// `bytes_total` equals exactly that sum — in particular it never
/// decreases while no wraparound occurs.
pub proof fn lemma_bytes_total_exact<S: LogSink>(c: &ReadStatsLogger<S>)
    requires
        c.wf(),
        total_recorded(c.recorded()) <= usize::MAX,
    ensures
        c.total_spec() as nat == total_recorded(c.recorded()),
{
    lemma_small_mod(total_recorded(c.recorded()), wrap_modulus());
}

/// Law: across one recorded read, `read_count` and `bytes_total` never
/// decrease unless the documented wraparound occurs.
pub proof fn lemma_counters_monotone<S: LogSink>(
    pre: ReadStatsLogger<S>,
    post: ReadStatsLogger<S>,
    begin: usize,
    length: usize,
    request_length: usize,
)
    requires
        ReadStatsLogger::records_one(pre, post, begin, length, request_length),
        pre.count_spec() < usize::MAX,
        pre.total_spec() + length <= usize::MAX,
    ensures
        pre.count_spec() < post.count_spec(),
        pre.total_spec() <= post.total_spec(),
{
}

/// Counts read operations and bytes transferred, and emits one log line
/// per read through its sink.
///
/// `read_count` and `bytes_total` start at zero and only grow, except
/// for the documented silent wraparound at the counter width. They are
/// mutated by [`ReadStatsLogger::log`] alone.
pub struct ReadStatsLogger<S: LogSink> {
    tag: String,
    level: Level,
    policy: Policy,
    sink: S,
    base: Ghost<nat>,
    records: Ghost<Seq<(usize, usize, usize)>>,
    /// How many reads have been recorded (wrapping).
    pub read_count: usize,
    /// How many bytes the recorded reads carried (wrapping).
    pub bytes_total: usize,
}

impl<S: LogSink> ReadStatsLogger<S> {
    /// The tag that identifies this counter's lines in shared log output.
    pub closed spec fn tag_spec(&self) -> Seq<char> {
        self.tag@
    }

    /// The number of reads recorded so far (wrapping): the value of the
    /// `read_count` field.
    pub closed spec fn count_spec(&self) -> usize {
        self.read_count
    }

    /// The number of bytes the recorded reads carried (wrapping): the
    /// value of the `bytes_total` field.
    pub closed spec fn total_spec(&self) -> usize {
        self.bytes_total
    }

    /// The severity level every line is emitted at.
    pub closed spec fn level_spec(&self) -> Level {
        self.level
    }

    /// The counting policy fixed at construction.
    pub closed spec fn policy_spec(&self) -> Policy {
        self.policy
    }

    /// All lines the sink has carried, including any from before this
    /// counter existed.
    pub closed spec fn lines(&self) -> Seq<Seq<char>> {
        self.sink.lines()
    }

    /// How many lines the sink already held when this counter was built.
    pub closed spec fn base_lines(&self) -> nat {
        self.base@
    }

    /// The reads recorded so far, oldest first, each a
    /// `(begin, length, request_length)` triple.
    pub closed spec fn recorded(&self) -> Seq<(usize, usize, usize)> {
        self.records@
    }

    /// Validity: after N recorded reads, `read_count` is N and
    /// `bytes_total` is the sum of their lengths, each modulo the counter
    /// width, and the sink has gained exactly one header line plus one
    /// data line per recorded read.
    pub open spec fn wf(&self) -> bool {
        &&& self.count_spec() as nat == self.recorded().len() % wrap_modulus()
        &&& self.total_spec() as nat == total_recorded(self.recorded()) % wrap_modulus()
        &&& self.lines().len() == self.base_lines() + 1 + self.recorded().len()
    }

    /// A freshly built counter: zeroed, nothing recorded, and exactly one
    /// header line emitted beyond the `prior` lines its sink already held.
    pub open spec fn initialized(
        c: Self,
        policy: Policy,
        level: Level,
        tag: Seq<char>,
        prior: Seq<Seq<char>>,
    ) -> bool {
        &&& c.wf()
        &&& c.count_spec() == 0
        &&& c.total_spec() == 0
        &&& c.recorded() == Seq::<(usize, usize, usize)>::empty()
        &&& c.tag_spec() == tag
        &&& c.level_spec() == level
        &&& c.policy_spec() == policy
        &&& c.base_lines() == prior.len()
        &&& c.lines() == prior.push(header_line(policy, tag))
    }

    /// What one `log(begin, length, request_length)` call does: it pushes
    /// the record, bumps `read_count` by one and `bytes_total` by `length`
    /// (both wrapping), emits exactly the one data line carrying the new
    /// counter values, and leaves tag, level and policy unchanged.
    pub open spec fn records_one(
        pre: Self,
        post: Self,
        begin: usize,
        length: usize,
        request_length: usize,
    ) -> bool {
        &&& post.recorded() == pre.recorded().push((begin, length, request_length))
        &&& post.count_spec() as nat == wrap_add(pre.count_spec() as nat, 1)
        &&& post.total_spec() as nat == wrap_add(pre.total_spec() as nat, length as nat)
        &&& post.tag_spec() == pre.tag_spec()
        &&& post.level_spec() == pre.level_spec()
        &&& post.policy_spec() == pre.policy_spec()
        &&& post.base_lines() == pre.base_lines()
        &&& post.lines() == pre.lines().push(
            data_line(
                pre.policy_spec(),
                pre.tag_spec(),
                begin as nat,
                length as nat,
                request_length as nat,
                post.count_spec() as nat,
                post.total_spec() as nat,
            ),
        )
    }

    /// Builds a counter with the given policy, emitting its header line
    /// immediately, before any read can be recorded.
    pub fn with_policy(policy: Policy, level: Level, tag: &str, sink: S) -> (r: Self)
        ensures
            Self::initialized(r, policy, level, tag@, sink.lines()),
    {
        let ghost prior = sink.lines();
        let mut sink = sink;
        let header = match policy {
            Policy::Request => build_compact_header(),
            Policy::Delivery => build_verbose_header(tag),
        };
        sink.emit(level, header);
        let r = ReadStatsLogger {
            tag: String::from_str(tag),
            level,
            policy,
            sink,
            base: Ghost(prior.len()),
            records: Ghost(Seq::empty()),
            read_count: 0,
            bytes_total: 0,
        };
        proof {
            lemma_small_mod(0, wrap_modulus());
            assert(r.recorded() =~= Seq::<(usize, usize, usize)>::empty());
        }
        r
    }

    /// Builds a delivery-counting counter (the default policy), emitting
    /// its header line immediately.
    pub fn new(level: Level, tag: &str, sink: S) -> (r: Self)
        ensures
            Self::initialized(r, Policy::Delivery, level, tag@, sink.lines()),
    {
        Self::with_policy(Policy::Delivery, level, tag, sink)
    }

    /// Records one read of `length` effective bytes (`request_length`
    /// asked for) starting at `begin`: bumps the counters, wrapping
    /// silently on overflow, and emits one data line. It never fails.
    pub fn log(&mut self, begin: usize, length: usize, request_length: usize)
        requires
            old(self).wf(),
            begin + length <= usize::MAX,
        ensures
            final(self).wf(),
            Self::records_one(*old(self), *final(self), begin, length, request_length),
    {
        self.read_count = self.read_count.wrapping_add(1);
        self.bytes_total = self.bytes_total.wrapping_add(length);
        self.records = Ghost(self.records@.push((begin, length, request_length)));
        let line = match self.policy {
            Policy::Request => build_compact_data(
                self.tag.as_str(),
                begin,
                length,
                self.read_count,
                self.bytes_total,
            ),
            Policy::Delivery => build_verbose_data(
                self.tag.as_str(),
                begin,
                length,
                request_length,
                self.read_count,
                self.bytes_total,
            ),
        };
        let level = self.level;
        self.sink.emit(level, line);
        proof {
            let pre = *old(self);
            let post = *self;
            assert(post.recorded().drop_last() =~= pre.recorded());
            lemma_wrap_add_mod(pre.recorded().len(), 1);
            lemma_wrap_add_mod(total_recorded(pre.recorded()), length as nat);
        }
    }

    /// The sink this counter emits through.
    pub fn sink(&self) -> (s: &S)
        ensures
            s.lines() == self.lines(),
    {
        &self.sink
    }

    /// The counting policy fixed at construction.
    pub fn policy(&self) -> (p: Policy)
        ensures
            p == self.policy_spec(),
    {
        self.policy
    }
}

} // verus!
