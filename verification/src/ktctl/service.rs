//! Services as ktctl sees them: read from the init's cache and logs

use vstd::prelude::*;
use vstd::string::*;
use crate::console::{Colour, Colourize, resolved};
use crate::init::service::{Pattern, INIT_ENTRY};
use crate::text::{
    decimal, i32_from_le, i32_from_le_bytes, u32_from_le, u32_from_le_bytes, u64_to_decimal,
    i64_to_decimal, split_seq, split_str, str_eq, Sep, spec_join_path, join_path, seq_has,
    contains_str, strings, utf8_to_string,
};
use super::console::{Error, ErrorTrace, ErrorTraceView, traced};
use crate::text::{decimal_nat, records, has_byte, first_byte, is_first_byte, lemma_first_byte_unique};
use crate::zstd::{zstd_header_ok, zstd_decompressed, open_frame, decompress};

verus! {

/// The raw values of a service's cache, as the init wrote them
#[derive(PartialEq, Eq, Copy, Clone, Debug, Structural)]
pub struct CacheInstance {
    pub pattern: u8,
    pub sandboxed: u8,
    pub pid: u32,
    pub status: Option<i32>,
}

/// What `Read::read_exact` reports when the data ends too early
pub open spec fn eof_message() -> Seq<char> {
    "failed to fill whole buffer"@
}

pub open spec fn spec_read_cache(b: Seq<u8>) -> Result<CacheInstance, ErrorTraceView> {
    if b.len() < 7 || (b[6] == 1 && b.len() < 11) {
        Err(traced(Error::ServiceConfig, eof_message()))
    } else {
        Ok(
            CacheInstance {
                pattern: b[0],
                sandboxed: b[1],
                pid: u32_from_le(b.subrange(2, 6)),
                status: if b[6] == 1 {
                    Some(i32_from_le(b.subrange(7, 11)))
                } else {
                    None
                },
            },
        )
    }
}

pub open spec fn bool_byte_message(b: u8) -> Seq<char> {
    "expected 0 or 1 for a boolean, got "@ + decimal(b as int)
}

/// The values a cache stands for: its pattern, whether it is sandboxed, its PID
/// and the exit status of the service
pub open spec fn spec_export(c: CacheInstance) -> Result<(Pattern, bool, u32, Option<i32>), ErrorTraceView> {
    match Pattern::spec_from_byte(c.pattern) {
        None => Err(traced(Error::ServiceConfig, Pattern::bad_byte_message(c.pattern))),
        Some(p) => if c.sandboxed == 0 {
            Ok((p, false, c.pid, c.status))
        } else if c.sandboxed == 1 {
            Ok((p, true, c.pid, c.status))
        } else {
            Err(traced(Error::ServiceConfig, bool_byte_message(c.sandboxed)))
        },
    }
}

pub open spec fn result_view<T>(r: Result<T, ErrorTrace>) -> Result<T, ErrorTraceView> {
    match r {
        Ok(v) => Ok(v),
        Err(e) => Err(e@),
    }
}

fn eof_error() -> (r: ErrorTrace)
    ensures
        r@ == traced(Error::ServiceConfig, eof_message()),
{
    Error::ServiceConfig.trace("failed to fill whole buffer")
}

impl CacheInstance {
    /// Reads a cache: 2 bytes (pattern, sandboxed), 4 bytes of the PID in
    /// little-endian order, a switch byte, then when the switch is 1 the exit
    /// status in 4 little-endian bytes
    ///
    /// # Errors
    ///
    /// * The bytes end before the cache does
    pub fn read(source: &[u8]) -> (r: Result<CacheInstance, ErrorTrace>)
        ensures
            result_view(r) == spec_read_cache(source@),
    {
        let n = source.len();
        if n < 7 {
            return Err(eof_error());
        }
        let pid = u32_from_le_bytes(source[2], source[3], source[4], source[5]);
        assert(seq![source[2], source[3], source[4], source[5]] =~= source@.subrange(2, 6));
        let status = if source[6] == 1 {
            if n < 11 {
                return Err(eof_error());
            }
            assert(seq![source[7], source[8], source[9], source[10]] =~= source@.subrange(7, 11));
            Some(i32_from_le_bytes(source[7], source[8], source[9], source[10]))
        } else {
            None
        };
        Ok(CacheInstance { pattern: source[0], sandboxed: source[1], pid, status })
    }

    /// The values the cache stands for
    ///
    /// # Errors
    ///
    /// * The pattern byte stands for no pattern,
    /// * The sandboxed byte is neither 0 nor 1
    pub fn export(self) -> (r: Result<(Pattern, bool, u32, Option<i32>), ErrorTrace>)
        ensures
            result_view(r) == spec_export(self),
    {
        let pattern = match Pattern::from_byte(self.pattern) {
            Some(p) => p,
            None => {
                let m = Pattern::bad_byte_text(self.pattern);
                return Err(Error::ServiceConfig.trace(m.as_str()));
            },
        };
        let sandboxed = if self.sandboxed == 0 {
            false
        } else if self.sandboxed == 1 {
            true
        } else {
            let mut m = String::from_str("expected 0 or 1 for a boolean, got ");
            let d = u64_to_decimal(self.sandboxed as u64);
            m.append(d.as_str());
            return Err(Error::ServiceConfig.trace(m.as_str()));
        };
        Ok((pattern, sandboxed, self.pid, self.status))
    }
}

/// A service of the running init, as far as ktctl knows it
#[derive(Clone, Debug)]
pub struct PartialService {
    name: String,
    pattern: Pattern,
    sandboxed: bool,
    status: Option<i32>,
    pid: u32,
}

pub struct PartialServiceView {
    pub name: Seq<char>,
    pub pattern: Pattern,
    pub sandboxed: bool,
    pub status: Option<i32>,
    pub pid: u32,
}

impl View for PartialService {
    type V = PartialServiceView;

    closed spec fn view(&self) -> PartialServiceView {
        PartialServiceView {
            name: self.name@,
            pattern: self.pattern,
            sandboxed: self.sandboxed,
            status: self.status,
            pid: self.pid,
        }
    }
}

pub open spec fn with_context(e: ErrorTraceView, context: Seq<char>) -> ErrorTraceView {
    ErrorTraceView { kind: e.kind, context: Some(context), trace: e.trace }
}

/// The service a cache describes, or the error of reading it, with the
/// service's name as the error's context
pub open spec fn spec_from_cache(name: Seq<char>, bytes: Seq<u8>) -> Result<PartialServiceView, ErrorTraceView> {
    match spec_read_cache(bytes) {
        Err(e) => Err(with_context(e, name)),
        Ok(c) => match spec_export(c) {
            Err(e) => Err(with_context(e, name)),
            Ok((pattern, sandboxed, pid, status)) => Ok(
                PartialServiceView { name, pattern, sandboxed, status, pid },
            ),
        },
    }
}

pub open spec fn service_result_view(r: Result<PartialService, ErrorTrace>) -> Result<PartialServiceView, ErrorTraceView> {
    match r {
        Ok(s) => Ok(s@),
        Err(e) => Err(e@),
    }
}

/// What ktctl shows as a service's status, and in which colour
pub open spec fn spec_status(pattern: Pattern, stat: Option<Seq<char>>, status: Option<i32>) -> (Seq<char>, Colour) {
    if pattern == Pattern::Standard {
        match stat {
            Some(st) => {
                let fields = split_seq(st, Sep::Char(' '));
                if fields.len() > 2 {
                    let w = fields[2];
                    if w == "Z"@ || w == "X"@ {
                        ("Dead"@, Colour::Red)
                    } else if w == "S"@ || w == "I"@ || w == "D"@ || w == "R"@ {
                        ("Up"@, Colour::Green)
                    } else {
                        ("Unknown"@, Colour::Red)
                    }
                } else {
                    ("Unknown"@, Colour::Red)
                }
            },
            None => ("Dead"@, Colour::Red),
        }
    } else {
        match status {
            Some(c) => if c > 0 {
                ("Failed (exit code "@ + decimal(c as int) + ")"@, Colour::Red)
            } else if c == 0 {
                ("Finished"@, Colour::Green)
            } else {
                ("Failed"@, Colour::Red)
            },
            None => ("Failed"@, Colour::Red),
        }
    }
}

/// The lines ktctl prints of a service: its name in bold, its status, whether
/// it is sandboxed, its PID for standard services, then an empty line
pub open spec fn spec_report(s: PartialServiceView, stat: Option<Seq<char>>) -> Seq<Seq<char>> {
    let (label, colour) = spec_status(s.pattern, stat, s.status);
    let head = seq![
        resolved(seq![Colour::Bold], s.name, false),
        "├─ Status:    "@ + resolved(seq![colour], label, false),
    ];
    let sand = if s.sandboxed {
        seq![
            (if s.pattern == Pattern::Standard {
                "├─"@
            } else {
                "└─"@
            }) + " Sandboxed: "@ + resolved(seq![Colour::Green], "yes"@, false),
        ]
    } else {
        Seq::empty()
    };
    let pid = if s.pattern == Pattern::Standard {
        seq!["└─ PID:       "@ + decimal(s.pid as int)]
    } else {
        Seq::empty()
    };
    head + sand + pid + seq![Seq::empty()]
}

impl PartialService {
    pub fn name(&self) -> (r: &String)
        ensures
            r@ == self@.name,
    {
        &self.name
    }

    pub fn pattern(&self) -> (r: Pattern)
        ensures
            r == self@.pattern,
    {
        self.pattern
    }

    pub fn sandboxed(&self) -> (r: bool)
        ensures
            r == self@.sandboxed,
    {
        self.sandboxed
    }

    pub fn status(&self) -> (r: Option<i32>)
        ensures
            r == self@.status,
    {
        self.status
    }

    pub fn pid(&self) -> (r: u32)
        ensures
            r == self@.pid,
    {
        self.pid
    }

    /// The path of one of the service's files: `stat` is the process's status
    /// file in procfs, anything else lies in the service's run directory
    pub fn path(&self, path: &str) -> (r: String)
        ensures
            r@ == if path@ == "stat"@ {
                "/proc/"@ + decimal(self@.pid as int) + "/stat"@
            } else {
                spec_join_path(spec_join_path("/run/kickit/service"@, self@.name), path@)
            },
    {
        if str_eq(path, "stat") {
            let mut p = String::from_str("/proc/");
            let d = u64_to_decimal(self.pid as u64);
            p.append(d.as_str());
            p.append("/stat");
            p
        } else {
            let dir = join_path("/run/kickit/service", self.name.as_str());
            join_path(dir.as_str(), path)
        }
    }

    /// The service named `name`, from the bytes of its cache
    ///
    /// # Errors
    ///
    /// * The cache is too short,
    /// * The cache holds a bad pattern or sandbox byte
    pub fn from_cache(name: &str, bytes: &[u8]) -> (r: Result<PartialService, ErrorTrace>)
        ensures
            service_result_view(r) == spec_from_cache(name@, bytes@),
    {
        let cache = match CacheInstance::read(bytes) {
            Ok(c) => c,
            Err(e) => return Err(e.context(name)),
        };
        match cache.export() {
            Ok((pattern, sandboxed, pid, status)) => Ok(
                PartialService { name: name.to_owned(), pattern, sandboxed, status, pid },
            ),
            Err(e) => Err(e.context(name)),
        }
    }

    /// The status label and its colour, from the process's stat file (when it
    /// could be read)
    pub fn status_label(&self, stat: Option<&str>) -> (r: (String, Colour))
        ensures
            (r.0@, r.1) == spec_status(
                self@.pattern,
                match stat {
                    Some(s) => Some(s@),
                    None => None,
                },
                self@.status,
            ),
    {
        if self.pattern == Pattern::Standard {
            match stat {
                Some(st) => {
                    let fields = split_str(st, Sep::Char(' '));
                    if fields.len() > 2 {
                        let w = fields[2].as_str();
                        if str_eq(w, "Z") || str_eq(w, "X") {
                            (String::from_str("Dead"), Colour::Red)
                        } else if str_eq(w, "S") || str_eq(w, "I") || str_eq(w, "D") || str_eq(w, "R") {
                            (String::from_str("Up"), Colour::Green)
                        } else {
                            (String::from_str("Unknown"), Colour::Red)
                        }
                    } else {
                        (String::from_str("Unknown"), Colour::Red)
                    }
                },
                None => (String::from_str("Dead"), Colour::Red),
            }
        } else {
            match self.status {
                Some(c) => if c > 0 {
                    let mut m = String::from_str("Failed (exit code ");
                    let d = i64_to_decimal(c as i64);
                    m.append(d.as_str());
                    m.append(")");
                    (m, Colour::Red)
                } else if c == 0 {
                    (String::from_str("Finished"), Colour::Green)
                } else {
                    (String::from_str("Failed"), Colour::Red)
                },
                None => (String::from_str("Failed"), Colour::Red),
            }
        }
    }

    /// The lines printed of this service
    pub fn report(&self, stat: Option<&str>) -> (r: Vec<String>)
        ensures
            strings(r@) == spec_report(
                self@,
                match stat {
                    Some(s) => Some(s@),
                    None => None,
                },
            ),
    {
        let mut out: Vec<String> = Vec::new();
        out.push(self.name.clone().bold().resolve());
        let (label, colour) = self.status_label(stat);
        let mut status = String::from_str("├─ Status:    ");
        let coloured = label.colour(colour).resolve();
        status.append(coloured.as_str());
        out.push(status);
        if self.sandboxed {
            let mut line = if self.pattern == Pattern::Standard {
                String::from_str("├─")
            } else {
                String::from_str("└─")
            };
            line.append(" Sandboxed: ");
            let yes = "yes".colour(Colour::Green).resolve();
            line.append(yes.as_str());
            out.push(line);
        }
        if self.pattern == Pattern::Standard {
            let mut line = String::from_str("└─ PID:       ");
            let d = u64_to_decimal(self.pid as u64);
            line.append(d.as_str());
            out.push(line);
        }
        out.push(String::new());
        assert(strings(out@) =~= spec_report(
            self@,
            match stat {
                Some(s) => Some(s@),
                None => None,
            },
        ));
        out
    }
}

/// Whether a service is listed: it is when no names were asked for, or when its
/// name is among them
pub fn listed(name: &str, targets: Option<&[String]>) -> (r: bool)
    ensures
        r == match targets {
            None => true,
            Some(t) => seq_has(strings(t@), name@),
        },
{
    match targets {
        None => true,
        Some(t) => contains_str(t, name),
    }
}

/// The bold marker of the init's entries in a service's log
pub open spec fn init_marker(ugly: bool) -> Seq<char> {
    if ugly {
        "(kickit) "@
    } else {
        "\x1b[1m(kickit) \x1b[0m"@
    }
}

/// One entry of a service's log
#[derive(Clone, Debug)]
pub struct LogLine {
    /// Milliseconds since the epoch, as text
    pub timestamp: String,
    /// The entry comes from the init, not from the service
    pub from_init: bool,
    pub contents: String,
}

/// A decoded entry: `Ok(None)` for an init entry that is skipped, `Err(())` for
/// bytes that are not UTF-8 where text is expected
pub open spec fn spec_decode_entry(entry: Seq<u8>, ignore_init: bool) -> Result<Option<(Seq<char>, bool, Seq<char>)>, ()> {
    let ts = entry.take(13);
    if !vstd::utf8::valid_utf8(ts) {
        Err(())
    } else {
        let from_init = entry[13] == INIT_ENTRY;
        if from_init && ignore_init {
            Ok(None)
        } else {
            let body = if from_init {
                entry.skip(14)
            } else {
                entry.skip(13)
            };
            if !vstd::utf8::valid_utf8(body) {
                Err(())
            } else {
                Ok(Some((vstd::utf8::decode_utf8(ts), from_init, vstd::utf8::decode_utf8(body))))
            }
        }
    }
}

pub open spec fn entry_view(r: Result<Option<LogLine>, ErrorTrace>) -> Result<Option<(Seq<char>, bool, Seq<char>)>, ()> {
    match r {
        Ok(Some(l)) => Ok(Some((l.timestamp@, l.from_init, l.contents@))),
        Ok(None) => Ok(None),
        Err(_) => Err(()),
    }
}

fn copy_range(b: &[u8], from: usize, to: usize) -> (r: Vec<u8>)
    requires
        from <= to <= b.len(),
    ensures
        r@ == b@.subrange(from as int, to as int),
{
    let mut out: Vec<u8> = Vec::new();
    let mut i = from;
    while i < to
        invariant
            from <= i <= to <= b.len(),
            out@ == b@.subrange(from as int, i as int),
        decreases to - i,
    {
        out.push(b[i]);
        proof {
            assert(b@.subrange(from as int, i + 1) =~= b@.subrange(from as int, i as int).push(b@[i as int]));
        }
        i = i + 1;
    }
    out
}

/// Decodes one entry of a service's log: 13 bytes of timestamp, the init's
/// marker byte when the entry comes from the init, then the entry's text.
/// Init entries are skipped when `ignore_init` holds.
///
/// # Errors
///
/// * The timestamp or the text is not UTF-8 (an error of kind `Format`)
pub fn decode_log_entry(entry: &[u8], ignore_init: bool) -> (r: Result<Option<LogLine>, ErrorTrace>)
    requires
        entry.len() >= 14,
    ensures
        entry_view(r) == spec_decode_entry(entry@, ignore_init),
        r matches Err(e) ==> e@.kind == Error::Format && e@.context is None,
{
    let ts_bytes = copy_range(entry, 0, 13);
    assert(ts_bytes@ =~= entry@.take(13));
    let timestamp = match utf8_to_string(ts_bytes) {
        Ok(s) => s,
        Err(e) => return Err(Error::Format.trace(e.as_str())),
    };
    let from_init = entry[13] == INIT_ENTRY;
    if from_init && ignore_init {
        return Ok(None);
    }
    let start: usize = if from_init {
        14
    } else {
        13
    };
    let body = copy_range(entry, start, entry.len());
    assert(body@ =~= entry@.skip(start as int));
    let contents = match utf8_to_string(body) {
        Ok(s) => s,
        Err(e) => return Err(Error::Format.trace(e.as_str())),
    };
    Ok(Some(LogLine { timestamp, from_init, contents }))
}

/// A printed line of a service's log: the time in brackets, the init's marker
/// for the init's entries, the text, and a line feed
pub open spec fn spec_log_text(time: Seq<char>, from_init: bool, ugly: bool, contents: Seq<char>) -> Seq<char> {
    "["@ + time + "] "@ + (if from_init {
        init_marker(ugly)
    } else {
        Seq::empty()
    }) + contents + "\n"@
}

pub fn log_text(time: &str, from_init: bool, ugly: bool, contents: &str) -> (r: String)
    ensures
        r@ == spec_log_text(time@, from_init, ugly, contents@),
{
    let mut s = String::from_str("[");
    s.append(time);
    s.append("] ");
    let ghost before = s@;
    if from_init {
        if ugly {
            s.append("(kickit) ");
        } else {
            s.append("\x1b[1m(kickit) \x1b[0m");
        }
    } else {
        assert(s@ =~= before + Seq::<char>::empty());
    }
    s.append(contents);
    s.append("\n");
    s
}

/// A service's cache is read back by ktctl as the values the init cached: the
/// pattern, whether it is sandboxed, the PID, and the exit status.
pub proof fn law_cache_read_back(
    name: Seq<char>,
    pattern: Pattern,
    sandboxed: bool,
    state: crate::init::service::State,
    pid: u32,
)
    ensures
        spec_from_cache(name, crate::init::service::spec_cache(pattern, sandboxed, state, pid)) == Ok::<
            PartialServiceView,
            ErrorTraceView,
        >(
            PartialServiceView {
                name,
                pattern,
                sandboxed,
                status: state.spec_exit_code(),
                pid,
            },
        ),
{
    let b = crate::init::service::spec_cache(pattern, sandboxed, state, pid);
    assert(b.subrange(2, 6) =~= crate::text::le_bytes_u32(pid));
    crate::text::lemma_u32_le_roundtrip(pid);
    match state.spec_exit_code() {
        Some(code) => {
            assert(b.subrange(7, 11) =~= crate::text::le_bytes_i32(code));
            crate::text::lemma_i32_le_roundtrip(code);
        },
        None => {},
    }
}

// ---------------------------------------------------------------------------
// Reading a log

/// Bytes read record by record, each record ending at the delimiter (which
/// is left out)
#[derive(Clone, Debug)]
pub struct Delimited {
    delimiter: u8,
    buf: Vec<u8>,
    pos: usize,
}

impl View for Delimited {
    type V = (u8, Seq<u8>);

    /// The delimiter, and the bytes still to read
    closed spec fn view(&self) -> (u8, Seq<u8>) {
        (self.delimiter, if self.pos <= self.buf@.len() {
            self.buf@.skip(self.pos as int)
        } else {
            Seq::empty()
        })
    }
}

impl Delimited {
    /// The next record: the bytes up to the next delimiter, or the last bytes
    /// when no delimiter follows; `None` once everything was read
    pub fn next(&mut self) -> (r: Option<Vec<u8>>)
        ensures
            final(self)@.0 == old(self)@.0,
            match r {
                None => old(self)@.1.len() == 0 && final(self)@ == old(self)@,
                Some(rec) => old(self)@.1.len() > 0 && final(self)@.1.len() < old(self)@.1.len() && records(
                    old(self)@.1,
                    old(self)@.0,
                ) == seq![rec@] + records(final(self)@.1, old(self)@.0),
            },
    {
        if self.pos >= self.buf.len() {
            return None;
        }
        let ghost t = self.buf@.skip(self.pos as int);
        let d = self.delimiter;
        let start = self.pos;
        let mut out: Vec<u8> = Vec::new();
        let mut i = start;
        while i < self.buf.len() && self.buf[i] != d
            invariant
                start <= i <= self.buf.len(),
                start == self.pos,
                d == self.delimiter,
                t == self.buf@.skip(start as int),
                out@ == self.buf@.subrange(start as int, i as int),
                forall|j: int| start <= j < i ==> #[trigger] self.buf@[j] != d,
            decreases self.buf.len() - i,
        {
            out.push(self.buf[i]);
            proof {
                assert(self.buf@.subrange(start as int, i + 1) =~= self.buf@.subrange(start as int, i as int).push(self.buf@[i as int]));
            }
            i = i + 1;
        }
        proof {
            let k = (i - start) as int;
            assert(out@ =~= t.take(k));
            if i < self.buf.len() {
                assert(is_first_byte(t, d, k)) by {
                    assert forall|j: int| 0 <= j < k implies #[trigger] t[j] != d by {
                        assert(t[j] == self.buf@[start + j]);
                    }
                }
                lemma_first_byte_unique(t, d, k, first_byte(t, d));
                assert(t.skip(k + 1) =~= self.buf@.skip(i + 1));
            } else {
                assert(!has_byte(t, d)) by {
                    if has_byte(t, d) {
                        let w = first_byte(t, d);
                        assert(t[w] == self.buf@[start + w]);
                    }
                }
                assert(t.take(k) =~= t);
                assert(records(Seq::<u8>::empty(), d) =~= Seq::<Seq<u8>>::empty());
            }
        }
        if i < self.buf.len() {
            self.pos = i + 1;
        } else {
            self.pos = i;
            assert(self.buf@.skip(i as int) =~= Seq::<u8>::empty());
        }
        Some(out)
    }
}

/// Reading something record by record
pub trait Delimit: Sized {
    /// Records of this, cut at `delimiter`
    fn delimit(self, delimiter: u8) -> Delimited;
}

impl Delimit for Vec<u8> {
    fn delimit(self, delimiter: u8) -> (r: Delimited)
        ensures
            r@ == (delimiter, self@),
    {
        let r = Delimited { delimiter, buf: self, pos: 0 };
        assert(r.buf@.skip(0) =~= r.buf@);
        r
    }
}

/// An integer as `str::parse::<i64>` reads it: an optional sign, then
/// decimal digits only, within the range of `i64`
pub open spec fn digits_value(s: Seq<char>) -> int
    decreases s.len(),
{
    if s.len() == 0 {
        0
    } else {
        digits_value(s.drop_last()) * 10 + (s.last() as int - '0' as int)
    }
}

pub open spec fn all_digits(s: Seq<char>) -> bool {
    s.len() > 0 && forall|i: int| 0 <= i < s.len() ==> '0' <= #[trigger] s[i] <= '9'
}

pub open spec fn spec_parse_i64(s: Seq<char>) -> Option<int> {
    let v = if s.len() > 0 && s[0] == '-' && all_digits(s.drop_first()) {
        Some(-digits_value(s.drop_first()))
    } else if s.len() > 0 && s[0] == '+' && all_digits(s.drop_first()) {
        Some(digits_value(s.drop_first()))
    } else if all_digits(s) {
        Some(digits_value(s))
    } else {
        None
    };
    match v {
        Some(x) => if i64::MIN <= x <= i64::MAX {
            Some(x)
        } else {
            None
        },
        None => None,
    }
}

/// `str::parse::<i64>`. On failure the error's displayed text is returned;
/// what it says is not stated.
#[verifier::external_body]
fn parse_i64(s: &str) -> (r: Result<i64, String>)
    ensures
        match r {
            Ok(v) => spec_parse_i64(s@) == Some(v as int),
            Err(_) => spec_parse_i64(s@) is None,
        },
{
    match s.parse::<i64>() {
        Ok(v) => Ok(v),
        Err(e) => Err(e.to_string()),
    }
}

/// Whether `chrono` holds a date and time for a number of milliseconds since
/// the epoch
pub uninterp spec fn chrono_millis_valid(millis: i64) -> bool;

/// Whether chrono holds a date and time for a number of milliseconds since
/// the epoch (`chrono::DateTime::from_timestamp_millis` gives one). No time
/// zone is looked at.
#[verifier::external_body]
fn chrono_has_date(millis: i64) -> (r: bool)
    ensures
        r == chrono_millis_valid(millis),
{
    match chrono::DateTime::from_timestamp_millis(millis) {
        Some(_) => true,
        None => false,
    }
}

/// How the time of a log entry is shown: day, month and year, then hours,
/// minutes and seconds
pub const LOG_TIME_FORMAT: &'static str = "%d %b %Y, %H:%M:%S";

/// An entry of a log, with the time it is shown at: `None` in plain output,
/// where the timestamp itself is shown, else the timestamp's milliseconds
/// since the epoch, to be shown as a local date and time in
/// `LOG_TIME_FORMAT`
#[derive(Clone, Debug)]
pub struct TimedLine {
    pub millis: Option<i64>,
    pub entry: LogLine,
}

/// The time an entry is shown at, as `logs` gives it: none in plain output,
/// else its timestamp read as an integer, which chrono holds a date for
pub open spec fn timed_line_ok(l: TimedLine, ugly: bool) -> bool {
    if ugly {
        l.millis is None
    } else {
        l.millis matches Some(ms) && spec_parse_i64(l.entry.timestamp@) == Some(ms as int)
            && chrono_millis_valid(ms)
    }
}

/// Why reading a log stopped
#[derive(Clone, Debug)]
pub enum LogStop {
    /// Every entry was read
    Finished,
    /// An error stopped the reading
    Failed(ErrorTrace),
    /// The log is malformed where ktctl reads it without checking (a frame
    /// that fails after its header, or an entry shorter than its header),
    /// and its reading panics
    Panicked,
}

pub enum SpecStop {
    Finished,
    Failed(Error),
    Panicked,
}

/// What showing an entry's time fails with, if it does: a timestamp that is
/// not an integer, or that chrono has no date for; plain output shows the
/// timestamp itself
pub open spec fn time_error(ts: Seq<char>, ugly: bool) -> Option<Error> {
    if ugly {
        None
    } else {
        match spec_parse_i64(ts) {
            None => Some(Error::Format),
            Some(ms) => if chrono_millis_valid(ms as i64) {
                None
            } else {
                Some(Error::Time)
            },
        }
    }
}

/// The entries read from the records of a log, and why reading stopped
pub open spec fn spec_log_entries(recs: Seq<Seq<u8>>, ignore_init: bool, ugly: bool) -> (Seq<(Seq<char>, bool, Seq<char>)>, SpecStop)
    decreases recs.len(),
{
    if recs.len() == 0 {
        (Seq::empty(), SpecStop::Finished)
    } else {
        let rec = recs[0];
        if rec.len() < 13 {
            (Seq::empty(), SpecStop::Panicked)
        } else if rec.len() == 13 {
            if vstd::utf8::valid_utf8(rec) {
                (Seq::empty(), SpecStop::Panicked)
            } else {
                (Seq::empty(), SpecStop::Failed(Error::Format))
            }
        } else {
            match spec_decode_entry(rec, ignore_init) {
                Err(_) => (Seq::empty(), SpecStop::Failed(Error::Format)),
                Ok(None) => spec_log_entries(recs.drop_first(), ignore_init, ugly),
                Ok(Some(e)) => match time_error(e.0, ugly) {
                    Some(k) => (Seq::empty(), SpecStop::Failed(k)),
                    None => {
                        let (rest, stop) = spec_log_entries(recs.drop_first(), ignore_init, ugly);
                        (seq![e] + rest, stop)
                    },
                },
            }
        }
    }
}

/// The entries of a compressed log, and why reading stopped
pub open spec fn spec_read_log(frame: Seq<u8>, ignore_init: bool, ugly: bool) -> (Seq<(Seq<char>, bool, Seq<char>)>, SpecStop) {
    if !zstd_header_ok(frame) {
        (Seq::empty(), SpecStop::Failed(Error::LogAccessFail))
    } else {
        match zstd_decompressed(frame) {
            None => (Seq::empty(), SpecStop::Panicked),
            Some(data) => spec_log_entries(records(data, 10u8), ignore_init, ugly),
        }
    }
}

pub open spec fn timed_entries(v: Seq<TimedLine>) -> Seq<(Seq<char>, bool, Seq<char>)> {
    v.map_values(|l: TimedLine| (l.entry.timestamp@, l.entry.from_init, l.entry.contents@))
}

pub open spec fn stop_view(s: LogStop) -> SpecStop {
    match s {
        LogStop::Finished => SpecStop::Finished,
        LogStop::Failed(e) => SpecStop::Failed(e@.kind),
        LogStop::Panicked => SpecStop::Panicked,
    }
}

impl PartialService {
    /// The entries of the service's compressed log, in order, each with the
    /// time it is shown at: none for plain output, where the timestamp itself
    /// is shown, else the timestamp's milliseconds, which the caller shows as
    /// a local date and time. The init's entries are skipped when asked.
    /// Reading stops at the first error; the entries before it are kept.
    ///
    /// # Errors
    ///
    /// * The log's header cannot be read (`LogAccessFail`, with the service's name),
    /// * An entry is not UTF-8, or its timestamp is not an integer (`Format`),
    /// * chrono has no date for a timestamp (`Time`, with the service's name)
    pub fn logs(&self, log: &[u8], ugly: bool, ignore_init: bool) -> (r: (Vec<TimedLine>, LogStop))
        ensures
            (timed_entries(r.0@), stop_view(r.1)) == spec_read_log(log@, ignore_init, ugly),
            forall|i: int| 0 <= i < r.0@.len() ==> timed_line_ok(#[trigger] r.0@[i], ugly),
            r.1 matches LogStop::Failed(e) ==> (e@.kind == Error::LogAccessFail || e@.kind == Error::Time)
                ==> e@.context == Some(self@.name),
    {
        let mut out: Vec<TimedLine> = Vec::new();
        match open_frame(log) {
            Ok(_) => {},
            Err(m) => {
                let e = Error::LogAccessFail.trace(m.as_str()).context(self.name.as_str());
                return (out, LogStop::Failed(e));
            },
        }
        let data = match decompress(log) {
            Ok(d) => d,
            Err(_) => {
                return (out, LogStop::Panicked);
            },
        };
        let ghost all = records(data@, 10u8);
        let mut recs = data.delimit(10u8);
        loop
            invariant
                recs@.0 == 10u8,
                spec_read_log(log@, ignore_init, ugly) == ({
                    let (rest, stop) = spec_log_entries(records(recs@.1, 10u8), ignore_init, ugly);
                    (timed_entries(out@) + rest, stop)
                }),
                forall|i: int| 0 <= i < out@.len() ==> timed_line_ok(#[trigger] out@[i], ugly),
            decreases recs@.1.len(),
        {
            let ghost before = recs@.1;
            let ghost out_before = timed_entries(out@);
            let rec = match recs.next() {
                Some(rec) => rec,
                None => {
                    proof {
                        assert(records(before, 10u8) =~= Seq::<Seq<u8>>::empty());
                        assert(out_before + Seq::<(Seq<char>, bool, Seq<char>)>::empty() =~= out_before);
                    }
                    return (out, LogStop::Finished);
                },
            };
            proof {
                assert(records(before, 10u8)[0] == rec@);
                assert(records(before, 10u8).drop_first() =~= records(recs@.1, 10u8));
            }
            if rec.len() < 13 {
                assert(out_before + Seq::<(Seq<char>, bool, Seq<char>)>::empty() =~= out_before);
                return (out, LogStop::Panicked);
            }
            if rec.len() == 13 {
                match utf8_to_string(rec) {
                    Ok(_) => {
                        assert(out_before + Seq::<(Seq<char>, bool, Seq<char>)>::empty() =~= out_before);
                        return (out, LogStop::Panicked);
                    },
                    Err(m) => {
                        assert(out_before + Seq::<(Seq<char>, bool, Seq<char>)>::empty() =~= out_before);
                        return (out, LogStop::Failed(Error::Format.trace(m.as_str())));
                    },
                }
            }
            let entry = match decode_log_entry(rec.as_slice(), ignore_init) {
                Ok(Some(l)) => l,
                Ok(None) => {
                    continue ;
                },
                Err(e) => {
                    assert(out_before + Seq::<(Seq<char>, bool, Seq<char>)>::empty() =~= out_before);
                    return (out, LogStop::Failed(e));
                },
            };
            let millis = if ugly {
                None
            } else {
                let ms = match parse_i64(entry.timestamp.as_str()) {
                    Ok(v) => v,
                    Err(m) => {
                        assert(out_before + Seq::<(Seq<char>, bool, Seq<char>)>::empty() =~= out_before);
                        return (out, LogStop::Failed(Error::Format.trace(m.as_str())));
                    },
                };
                if !chrono_has_date(ms) {
                    assert(out_before + Seq::<(Seq<char>, bool, Seq<char>)>::empty() =~= out_before);
                    let e = Error::Time.trace("Failed to convert timestamp from service log").context(self.name.as_str());
                    return (out, LogStop::Failed(e));
                }
                Some(ms)
            };
            let ghost item = (entry.timestamp@, entry.from_init, entry.contents@);
            out.push(TimedLine { millis, entry });
            proof {
                assert(timed_entries(out@) =~= out_before.push(item));
                let (rest, stop) = spec_log_entries(records(recs@.1, 10u8), ignore_init, ugly);
                assert(out_before + (seq![item] + rest) =~= out_before.push(item) + rest);
            }
        }
    }
}

proof fn lemma_entries_push(recs: Seq<Seq<u8>>, b: Seq<u8>, ignore_init: bool, ugly: bool)
    requires
        spec_log_entries(recs, ignore_init, ugly).1 == SpecStop::Finished,
    ensures
        spec_log_entries(recs.push(b), ignore_init, ugly) == ({
            let (e, s) = spec_log_entries(seq![b], ignore_init, ugly);
            (spec_log_entries(recs, ignore_init, ugly).0 + e, s)
        }),
    decreases recs.len(),
{
    if recs.len() == 0 {
        assert(recs.push(b) =~= seq![b]);
        let (e, s) = spec_log_entries(seq![b], ignore_init, ugly);
        assert(Seq::<(Seq<char>, bool, Seq<char>)>::empty() + e =~= e);
    } else {
        assert(recs.push(b)[0] == recs[0]);
        assert(recs.push(b).drop_first() =~= recs.drop_first().push(b));
        lemma_entries_push(recs.drop_first(), b, ignore_init, ugly);
        let (e, s) = spec_log_entries(seq![b], ignore_init, ugly);
        let (r1, s1) = spec_log_entries(recs.drop_first(), ignore_init, ugly);
        match spec_decode_entry(recs[0], ignore_init) {
            Ok(Some(x)) => {
                assert(seq![x] + (r1 + e) =~= (seq![x] + r1) + e);
            },
            _ => {},
        }
    }
}

/// A log the init appends an entry to (`Logger::record`) is read back by
/// ktctl (`PartialService::logs`): the entries read from the log's contents
/// are the earlier ones, then the new one with its timestamp, origin and
/// text (an init entry is skipped when init entries are ignored), and the
/// reading finishes. This holds for contents that end with a line feed and
/// read to their end, thirteen-digit timestamps, and lines that are not
/// empty and hold no line feed.
pub proof fn law_log_append_read_back(old_data: Seq<u8>, millis: u64, from_init: bool, line: Seq<char>, ignore_init: bool)
    requires
        old_data.len() == 0 || old_data.last() == 10u8,
        spec_log_entries(records(old_data, 10u8), ignore_init, true).1 == SpecStop::Finished,
        1_000_000_000_000 <= millis < 10_000_000_000_000,
        line.len() > 0,
        !line.contains('\n'),
    ensures
        spec_log_entries(
            records(old_data + crate::init::service::spec_entry_body(decimal_nat(millis as nat), from_init, line).push(10u8), 10u8),
            ignore_init,
            true,
        ) == (spec_log_entries(records(old_data, 10u8), ignore_init, true).0 + (if from_init && ignore_init {
            Seq::empty()
        } else {
            seq![(decimal_nat(millis as nat), from_init, line)]
        }), SpecStop::Finished),
{
    let ts = decimal_nat(millis as nat);
    let body = crate::init::service::spec_entry_body(ts, from_init, line);
    crate::init::service::law_log_entry_read_back(millis, from_init, line);
    crate::init::service::law_entry_body_has_no_feed(millis, from_init, line);
    crate::text::lemma_records_append(old_data, body, 10u8);
    let recs = records(old_data, 10u8);
    lemma_entries_push(recs, body, ignore_init, true);
    assert(body.len() >= 14) by {
        crate::init::service::lemma_body_len(millis, from_init, line);
    }
    assert(seq![body].drop_first() =~= Seq::<Seq<u8>>::empty());
    assert(seq![body][0] == body);
    reveal_with_fuel(spec_log_entries, 2);
    let (e, s) = spec_log_entries(seq![body], ignore_init, true);
    if from_init && ignore_init {
        assert(spec_decode_entry(body, true) == Ok::<Option<(Seq<char>, bool, Seq<char>)>, ()>(None));
        assert(e =~= Seq::<(Seq<char>, bool, Seq<char>)>::empty());
        assert(recs.len() >= 0);
        assert(spec_log_entries(recs, ignore_init, true).0 + e =~= spec_log_entries(recs, ignore_init, true).0 + Seq::<(Seq<char>, bool, Seq<char>)>::empty());
    } else {
        assert(spec_decode_entry(body, ignore_init) == Ok::<Option<(Seq<char>, bool, Seq<char>)>, ()>(Some((ts, from_init, line))));
        assert(e =~= seq![(ts, from_init, line)]);
    }
}

/// What a service's log is made of: an entry as the init writes it, with
/// its time in milliseconds since the epoch, whether it comes from the init,
/// and its text
pub type LoggedEntry = (u64, bool, Seq<char>);

/// An entry whose timestamp has thirteen digits and whose text is one line
/// that is not empty
pub open spec fn logged_entry_ok(e: LoggedEntry) -> bool {
    &&& 1_000_000_000_000 <= e.0 < 10_000_000_000_000
    &&& e.2.len() > 0
    &&& !e.2.contains('\n')
}

/// The contents of a log the init started empty and appended `es` to, in order
pub open spec fn spec_log_contents(es: Seq<LoggedEntry>) -> Seq<u8>
    decreases es.len(),
{
    if es.len() == 0 {
        Seq::empty()
    } else {
        spec_log_contents(es.drop_last()) + crate::init::service::spec_entry_body(
            decimal_nat(es.last().0 as nat),
            es.last().1,
            es.last().2,
        ).push(10u8)
    }
}

/// The entries ktctl shows of `es`: each with its timestamp's digits, its
/// origin and its text, the init's left out when they are ignored
pub open spec fn spec_logged_items(es: Seq<LoggedEntry>, ignore_init: bool) -> Seq<(Seq<char>, bool, Seq<char>)>
    decreases es.len(),
{
    if es.len() == 0 {
        Seq::empty()
    } else {
        spec_logged_items(es.drop_last(), ignore_init) + (if es.last().1 && ignore_init {
            Seq::empty()
        } else {
            seq![(decimal_nat(es.last().0 as nat), es.last().1, es.last().2)]
        })
    }
}

proof fn lemma_log_contents_read(es: Seq<LoggedEntry>, ignore_init: bool)
    requires
        forall|i: int| 0 <= i < es.len() ==> logged_entry_ok(#[trigger] es[i]),
    ensures
        spec_log_entries(records(spec_log_contents(es), 10u8), ignore_init, true) == (
            spec_logged_items(es, ignore_init),
            SpecStop::Finished,
        ),
    decreases es.len(),
{
    if es.len() == 0 {
        assert(records(Seq::<u8>::empty(), 10u8) =~= Seq::<Seq<u8>>::empty());
    } else {
        let init = es.drop_last();
        assert forall|i: int| 0 <= i < init.len() implies logged_entry_ok(#[trigger] init[i]) by {
            assert(init[i] == es[i]);
        }
        lemma_log_contents_read(init, ignore_init);
        let e = es.last();
        assert(logged_entry_ok(es[es.len() - 1]));
        let old_data = spec_log_contents(init);
        if init.len() > 0 {
            assert(old_data.last() == 10u8);
        }
        law_log_append_read_back(old_data, e.0, e.1, e.2, ignore_init);
    }
}

/// A log file the init writes is read back by ktctl: a service's log starts
/// as the empty frame (`empty_log`) and each `Logger::record` replaces it by
/// a frame of its contents with one entry appended. Whatever frame holds the
/// contents of such entries, `PartialService::logs` in plain output reads
/// from it exactly those entries, in order, each with its timestamp's
/// digits, its origin and its text (the init's left out when they are
/// ignored), and the reading finishes. This holds for entries with
/// thirteen-digit timestamps and text of one line that is not empty.
pub proof fn law_log_file_read_back(frame: Seq<u8>, es: Seq<LoggedEntry>, ignore_init: bool)
    requires
        forall|i: int| 0 <= i < es.len() ==> logged_entry_ok(#[trigger] es[i]),
        zstd_header_ok(frame),
        zstd_decompressed(frame) == Some(spec_log_contents(es)),
    ensures
        spec_read_log(frame, ignore_init, true) == (spec_logged_items(es, ignore_init), SpecStop::Finished),
{
    lemma_log_contents_read(es, ignore_init);
}

} // verus!
