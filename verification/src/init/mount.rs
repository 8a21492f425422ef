//! Mount flags and options, `/proc/mounts` and `/etc/fstab`

use vstd::prelude::*;
use vstd::string::*;
use crate::text::{
    split_seq, split_str, split_words, split_once, split_once_seq, str_eq, starts_with, is_prefix,
    words, join_seq, join_strs, strings, decimal, u64_to_decimal, Sep,
};
use super::console::{Error, ErrorTrace, ErrorTraceView, traced};

verus! {

/// Mount flags; each stands for one bit of the kernel's mount flags
#[derive(PartialEq, Eq, Clone, Copy, Debug, Structural)]
pub enum Flag {
    ReadOnly,
    NoSuid,
    NoDev,
    NoExec,
    Remount,
    Bind,
    Private,
}

impl Flag {
    pub open spec fn spec_value(self) -> u64 {
        match self {
            Flag::ReadOnly => 1,
            Flag::NoSuid => 2,
            Flag::NoDev => 4,
            Flag::NoExec => 8,
            Flag::Remount => 32,
            Flag::Bind => 4096,
            Flag::Private => 262144,
        }
    }

    /// The flag's bit
    pub fn value(self) -> (r: u64)
        ensures
            r == self.spec_value(),
    {
        match self {
            Flag::ReadOnly => 1,
            Flag::NoSuid => 2,
            Flag::NoDev => 4,
            Flag::NoExec => 8,
            Flag::Remount => 32,
            Flag::Bind => 4096,
            Flag::Private => 262144,
        }
    }

    pub open spec fn spec_name(self) -> Seq<char> {
        match self {
            Flag::ReadOnly => "ro"@,
            Flag::NoSuid => "nosuid"@,
            Flag::NoDev => "nodev"@,
            Flag::NoExec => "noexec"@,
            Flag::Remount => "remount"@,
            Flag::Bind => "bind"@,
            Flag::Private => "private"@,
        }
    }

    /// The flag's name, as in `/etc/fstab`
    pub fn name(self) -> (r: &'static str)
        ensures
            r@ == self.spec_name(),
    {
        match self {
            Flag::ReadOnly => "ro",
            Flag::NoSuid => "nosuid",
            Flag::NoDev => "nodev",
            Flag::NoExec => "noexec",
            Flag::Remount => "remount",
            Flag::Bind => "bind",
            Flag::Private => "private",
        }
    }

    pub open spec fn spec_from_name(name: Seq<char>) -> Option<Flag> {
        if name == "ro"@ {
            Some(Flag::ReadOnly)
        } else if name == "nosuid"@ {
            Some(Flag::NoSuid)
        } else if name == "nodev"@ {
            Some(Flag::NoDev)
        } else if name == "noexec"@ {
            Some(Flag::NoExec)
        } else if name == "remount"@ {
            Some(Flag::Remount)
        } else if name == "bind"@ {
            Some(Flag::Bind)
        } else if name == "private"@ {
            Some(Flag::Private)
        } else {
            None
        }
    }

    pub fn from_name(name: &str) -> (r: Option<Flag>)
        ensures
            r == Flag::spec_from_name(name@),
    {
        if str_eq(name, "ro") {
            Some(Flag::ReadOnly)
        } else if str_eq(name, "nosuid") {
            Some(Flag::NoSuid)
        } else if str_eq(name, "nodev") {
            Some(Flag::NoDev)
        } else if str_eq(name, "noexec") {
            Some(Flag::NoExec)
        } else if str_eq(name, "remount") {
            Some(Flag::Remount)
        } else if str_eq(name, "bind") {
            Some(Flag::Bind)
        } else if str_eq(name, "private") {
            Some(Flag::Private)
        } else {
            None
        }
    }

    /// The flag a name stands for
    ///
    /// # Errors
    ///
    /// * No flag has that name (`Unknown`, traced with the name)
    pub fn try_from_name(flag: &str) -> (r: Result<Flag, ErrorTrace>)
        ensures
            match r {
                Ok(f) => Flag::spec_from_name(flag@) == Some(f),
                Err(e) => Flag::spec_from_name(flag@) is None && e@ == traced(
                    Error::Unknown,
                    "Unrecognised mount flag: "@ + flag@,
                ),
            },
    {
        match Flag::from_name(flag) {
            Some(f) => Ok(f),
            None => {
                let mut m = String::from_str("Unrecognised mount flag: ");
                m.append(flag);
                Err(Error::Unknown.trace(m.as_str()))
            },
        }
    }
}

/// Flags for unmounting
#[derive(PartialEq, Eq, Clone, Copy, Debug, Structural)]
pub enum UnmountFlag {
    /// Unmount even if busy (nfs only)
    Force,
    /// Ignore checks & unmount anyway
    Lazy,
    /// Mark the mountpoint as expired
    Expire,
    /// Don't follow symlinks to their source
    NoFollow,
}

impl UnmountFlag {
    pub open spec fn spec_value(self) -> i32 {
        match self {
            UnmountFlag::Force => 1,
            UnmountFlag::Lazy => 2,
            UnmountFlag::Expire => 4,
            UnmountFlag::NoFollow => 8,
        }
    }

    pub fn value(self) -> (r: i32)
        ensures
            r == self.spec_value(),
    {
        match self {
            UnmountFlag::Force => 1,
            UnmountFlag::Lazy => 2,
            UnmountFlag::Expire => 4,
            UnmountFlag::NoFollow => 8,
        }
    }
}

/// Mount flags as one number (the kernel's `MsFlags` bits)
#[derive(PartialEq, Eq, Copy, Clone, Debug, Structural)]
pub struct Flags(pub u64);

/// Custom filesystem-specific options
#[derive(Clone, Debug)]
pub struct Opts(pub Vec<String>);

/// Flags for unmounting as one number (the kernel's `MntFlags` bits)
#[derive(PartialEq, Eq, Copy, Clone, Debug, Structural)]
pub struct UnmountFlags(pub i32);

/// The bits of several flags together
pub open spec fn flags_bits(flags: Seq<Flag>) -> u64
    decreases flags.len(),
{
    if flags.len() == 0 {
        0
    } else {
        flags_bits(flags.drop_last()) | flags.last().spec_value()
    }
}

pub open spec fn unmount_bits(flags: Seq<UnmountFlag>) -> i32
    decreases flags.len(),
{
    if flags.len() == 0 {
        0
    } else {
        unmount_bits(flags.drop_last()) | flags.last().spec_value()
    }
}

impl Flags {
    pub fn empty() -> (r: Flags)
        ensures
            r.0 == 0,
    {
        Flags(0)
    }

    /// The flags with all of `flags` set
    pub fn of(flags: &[Flag]) -> (r: Flags)
        ensures
            r.0 == flags_bits(flags@),
    {
        let mut bits: u64 = 0;
        let mut i: usize = 0;
        while i < flags.len()
            invariant
                0 <= i <= flags.len(),
                bits == flags_bits(flags@.take(i as int)),
            decreases flags.len() - i,
        {
            bits = bits | flags[i].value();
            proof {
                assert(flags@.take(i + 1).drop_last() =~= flags@.take(i as int));
            }
            i = i + 1;
        }
        assert(flags@.take(i as int) =~= flags@);
        Flags(bits)
    }

    pub fn bits(&self) -> (r: u64)
        ensures
            r == self.0,
    {
        self.0
    }
}

impl Default for Flags {
    fn default() -> (r: Flags)
        ensures
            r.0 == 0,
    {
        Flags(0)
    }
}

impl UnmountFlags {
    /// The flags with all of `flags` set
    pub fn of(flags: &[UnmountFlag]) -> (r: UnmountFlags)
        ensures
            r.0 == unmount_bits(flags@),
    {
        let mut bits: i32 = 0;
        let mut i: usize = 0;
        while i < flags.len()
            invariant
                0 <= i <= flags.len(),
                bits == unmount_bits(flags@.take(i as int)),
            decreases flags.len() - i,
        {
            bits = bits | flags[i].value();
            proof {
                assert(flags@.take(i + 1).drop_last() =~= flags@.take(i as int));
            }
            i = i + 1;
        }
        assert(flags@.take(i as int) =~= flags@);
        UnmountFlags(bits)
    }

    pub fn bits(&self) -> (r: i32)
        ensures
            r == self.0,
    {
        self.0
    }
}

impl Default for UnmountFlags {
    fn default() -> (r: UnmountFlags)
        ensures
            r.0 == 0,
    {
        UnmountFlags(0)
    }
}

impl Opts {
    pub fn new() -> (r: Opts)
        ensures
            r.0@.len() == 0,
    {
        Opts(Vec::new())
    }

    pub fn push(&mut self, opt: String)
        ensures
            final(self).0@ == old(self).0@.push(opt),
    {
        self.0.push(opt);
    }

    /// The options as the kernel takes them: separated by commas
    pub fn join(&self) -> (r: String)
        ensures
            r@ == join_seq(strings(self.0@), ","@),
    {
        join_strs(self.0.as_slice(), ",")
    }

    /// The options as they are displayed: separated by commas
    pub fn to_text(&self) -> (r: String)
        ensures
            r@ == join_seq(strings(self.0@), ","@),
    {
        self.join()
    }

    /// `None` for no options at all
    pub fn empty_none(self) -> (r: Option<Opts>)
        ensures
            self.0@.len() == 0 ==> r is None,
            self.0@.len() > 0 ==> r == Some(self),
    {
        if self.0.len() == 0 {
            None
        } else {
            Some(self)
        }
    }
}

// ---------------------------------------------------------------------------
// /proc/mounts

/// Whether a line of `/proc/mounts` names `mountpoint` as its second field
pub open spec fn names_mountpoint(line: Seq<char>, mountpoint: Seq<char>) -> bool {
    let fields = split_seq(line, Sep::Char(' '));
    fields.len() > 1 && fields[1] == mountpoint
}

/// Whether `mountpoint` is mounted, after the contents of `/proc/mounts`
pub open spec fn spec_mounted(proc_mounts: Seq<char>, mountpoint: Seq<char>) -> bool {
    let lines = split_seq(proc_mounts, Sep::Char('\n'));
    exists|i: int| 0 <= i < lines.len() && names_mountpoint(#[trigger] lines[i], mountpoint)
}

pub fn mounted(proc_mounts: &str, mountpoint: &str) -> (r: bool)
    ensures
        r == spec_mounted(proc_mounts@, mountpoint@),
{
    let lines = split_str(proc_mounts, Sep::Char('\n'));
    let ghost ls = split_seq(proc_mounts@, Sep::Char('\n'));
    let mut i: usize = 0;
    while i < lines.len()
        invariant
            0 <= i <= lines.len(),
            lines.deep_view() == ls,
            ls == split_seq(proc_mounts@, Sep::Char('\n')),
            forall|j: int| 0 <= j < i ==> !names_mountpoint(#[trigger] ls[j], mountpoint@),
        decreases lines.len() - i,
    {
        let fields = split_str(lines[i].as_str(), Sep::Char(' '));
        assert(ls[i as int] == lines[i as int]@);
        if fields.len() > 1 && str_eq(fields[1].as_str(), mountpoint) {
            assert(names_mountpoint(ls[i as int], mountpoint@));
            return true;
        }
        i = i + 1;
    }
    false
}

// ---------------------------------------------------------------------------
// /etc/fstab

/// How a device is found by its identifier
#[derive(PartialEq, Eq, Clone, Copy, Debug, Structural)]
pub enum LookupKind {
    PartUuid,
    Uuid,
    Label,
    Id,
}

impl LookupKind {
    pub open spec fn spec_dir(self) -> Seq<char> {
        match self {
            LookupKind::PartUuid => "partuuid"@,
            LookupKind::Uuid => "uuid"@,
            LookupKind::Label => "label"@,
            LookupKind::Id => "id"@,
        }
    }

    /// The name of the kind in the kernel's `by-...` directories
    pub fn dir(self) -> (r: &'static str)
        ensures
            r@ == self.spec_dir(),
    {
        match self {
            LookupKind::PartUuid => "partuuid",
            LookupKind::Uuid => "uuid",
            LookupKind::Label => "label",
            LookupKind::Id => "id",
        }
    }

    pub open spec fn spec_from_key(key: Seq<char>) -> Option<LookupKind> {
        if key == "PARTUUID"@ {
            Some(LookupKind::PartUuid)
        } else if key == "UUID"@ {
            Some(LookupKind::Uuid)
        } else if key == "LABEL"@ {
            Some(LookupKind::Label)
        } else if key == "ID"@ {
            Some(LookupKind::Id)
        } else {
            None
        }
    }

    pub fn from_key(key: &str) -> (r: Option<LookupKind>)
        ensures
            r == LookupKind::spec_from_key(key@),
    {
        if str_eq(key, "PARTUUID") {
            Some(LookupKind::PartUuid)
        } else if str_eq(key, "UUID") {
            Some(LookupKind::Uuid)
        } else if str_eq(key, "LABEL") {
            Some(LookupKind::Label)
        } else if str_eq(key, "ID") {
            Some(LookupKind::Id)
        } else {
            None
        }
    }

    /// The two places the kernel links a device found this way: under
    /// `/dev/disk`, and under `/dev/block` on some devices
    pub fn candidates(self, id: &str) -> (r: (String, String))
        ensures
            r.0@ == "/dev/disk/by-"@ + self.spec_dir() + "/"@ + id@,
            r.1@ == "/dev/block/by-"@ + self.spec_dir() + "/"@ + id@,
    {
        let mut a = String::from_str("/dev/disk/by-");
        a.append(self.dir());
        a.append("/");
        a.append(id);
        let mut b = String::from_str("/dev/block/by-");
        b.append(self.dir());
        b.append("/");
        b.append(id);
        (a, b)
    }

    /// The error when no linked device was found
    pub fn not_found(self, id: &str) -> (r: ErrorTrace)
        ensures
            r@ == traced(
                Error::Unknown,
                "Lookup "@ + self.spec_dir() + "="@ + id@ + " failed, no target was found!"@,
            ),
    {
        let mut m = String::from_str("Lookup ");
        m.append(self.dir());
        m.append("=");
        m.append(id);
        m.append(" failed, no target was found!");
        Error::Unknown.trace(m.as_str())
    }
}

/// Where a filesystem of `/etc/fstab` comes from
#[derive(Clone, Debug)]
pub enum FstabSource {
    /// Let the mount call infer the source (`auto` or `none`)
    Infer,
    /// A path as written
    Path(String),
    /// A device to look up by an identifier
    Lookup(LookupKind, String),
}

pub enum FstabSourceView {
    Infer,
    Path(Seq<char>),
    Lookup(LookupKind, Seq<char>),
}

/// One mount of `/etc/fstab`
#[derive(Clone, Debug)]
pub struct FstabEntry {
    pub source: FstabSource,
    pub dest: String,
    pub fs_type: Option<String>,
    pub flags: Flags,
    pub opts: Option<Opts>,
}

pub struct FstabEntryView {
    pub source: FstabSourceView,
    pub dest: Seq<char>,
    pub fs_type: Option<Seq<char>>,
    pub flags: u64,
    pub opts: Option<Seq<Seq<char>>>,
}

impl View for FstabEntry {
    type V = FstabEntryView;

    open spec fn view(&self) -> FstabEntryView {
        FstabEntryView {
            source: match self.source {
                FstabSource::Infer => FstabSourceView::Infer,
                FstabSource::Path(p) => FstabSourceView::Path(p@),
                FstabSource::Lookup(k, id) => FstabSourceView::Lookup(k, id@),
            },
            dest: self.dest@,
            fs_type: match self.fs_type {
                Some(t) => Some(t@),
                None => None,
            },
            flags: self.flags.0,
            opts: match self.opts {
                Some(o) => Some(strings(o.0@)),
                None => None,
            },
        }
    }
}

/// The sum of the bits of the flags named among `options`
pub open spec fn flag_sum(options: Seq<Seq<char>>) -> int
    decreases options.len(),
{
    if options.len() == 0 {
        0
    } else {
        flag_sum(options.drop_last()) + match Flag::spec_from_name(options.last()) {
            Some(f) => f.spec_value() as int,
            None => 0,
        }
    }
}

/// The options that are neither flags nor `defaults`, in order
pub open spec fn custom_options(options: Seq<Seq<char>>) -> Seq<Seq<char>>
    decreases options.len(),
{
    if options.len() == 0 {
        Seq::empty()
    } else {
        let rest = custom_options(options.drop_last());
        let o = options.last();
        if Flag::spec_from_name(o) is None && o != "defaults"@ {
            rest.push(o)
        } else {
            rest
        }
    }
}

pub open spec fn is_comment(line: Seq<char>) -> bool {
    is_prefix("#"@, line)
}

/// The flags of an entry, as summed while it is read: the bits of each named
/// flag are added (a flag named twice counts twice), and `remount` is added
/// again for the root filesystem
pub open spec fn entry_flag_total(line: Seq<char>) -> int {
    let w = words(line);
    flag_sum(split_seq(w[3], Sep::Char(','))) + if w[0] == "/"@ {
        32int
    } else {
        0int
    }
}

/// An fstab line can be read without its flags overflowing
pub open spec fn fstab_line_fits(line: Seq<char>) -> bool {
    !is_comment(line) && words(line).len() == 6 ==> entry_flag_total(line) <= u64::MAX
}

pub open spec fn spec_fstab_source(raw: Seq<char>) -> Result<FstabSourceView, ErrorTraceView> {
    if raw == "auto"@ || raw == "none"@ {
        Ok(FstabSourceView::Infer)
    } else {
        match split_once_seq(raw, '=') {
            Some((key, id)) => match LookupKind::spec_from_key(key) {
                Some(k) => Ok(FstabSourceView::Lookup(k, id)),
                None => Err(traced(Error::FstabParse, "Unknown lookup type: "@ + key)),
            },
            None => Ok(FstabSourceView::Path(raw)),
        }
    }
}

/// What one line of `/etc/fstab` says: nothing for a comment, else six fields
/// separated by whitespace: source, destination, filesystem type, options
/// (flags and filesystem options, separated by commas) and two ignored fields
pub open spec fn spec_fstab_line(line: Seq<char>) -> Result<Option<FstabEntryView>, ErrorTraceView> {
    if is_comment(line) {
        Ok(None)
    } else {
        let w = words(line);
        if w.len() != 6 {
            Err(
                traced(
                    Error::FstabParse,
                    "Expected a line with 6 elements, but found "@ + decimal(w.len() as int),
                ),
            )
        } else {
            match spec_fstab_source(w[0]) {
                Err(e) => Err(e),
                Ok(source) => {
                    let options = split_seq(w[3], Sep::Char(','));
                    let custom = custom_options(options);
                    Ok(
                        Some(
                            FstabEntryView {
                                source,
                                dest: w[1],
                                fs_type: if w[2] == "auto"@ || w[2] == "none"@ {
                                    None
                                } else {
                                    Some(w[2])
                                },
                                flags: entry_flag_total(line) as u64,
                                opts: if custom.len() == 0 {
                                    None
                                } else {
                                    Some(custom)
                                },
                            },
                        ),
                    )
                },
            }
        }
    }
}

pub open spec fn fstab_result_view(r: Result<Option<FstabEntry>, ErrorTrace>) -> Result<Option<FstabEntryView>, ErrorTraceView> {
    match r {
        Ok(Some(e)) => Ok(Some(e@)),
        Ok(None) => Ok(None),
        Err(e) => Err(e@),
    }
}

proof fn lemma_flag_sum_prefix(options: Seq<Seq<char>>, i: int)
    requires
        0 <= i <= options.len(),
    ensures
        flag_sum(options.take(i)) <= flag_sum(options),
        flag_sum(options.take(i)) >= 0,
    decreases options.len() - i,
{
    if i < options.len() {
        lemma_flag_sum_prefix(options, i + 1);
        assert(options.take(i + 1).drop_last() =~= options.take(i));
        lemma_flag_sum_nonneg(options.take(i));
    } else {
        assert(options.take(i) =~= options);
        lemma_flag_sum_nonneg(options);
    }
}

proof fn lemma_flag_sum_nonneg(options: Seq<Seq<char>>)
    ensures
        flag_sum(options) >= 0,
    decreases options.len(),
{
    if options.len() > 0 {
        lemma_flag_sum_nonneg(options.drop_last());
    }
}

/// Whether a line of `/etc/fstab` can be read without its flags overflowing;
/// reading one that cannot is refused (the sum would not fit in 64 bits)
pub fn fstab_flags_fit(line: &str) -> (r: bool)
    ensures
        r == fstab_line_fits(line@),
{
    if starts_with(line, "#") {
        return true;
    }
    let w = split_words(line);
    if w.len() != 6 {
        return true;
    }
    let ghost ws = w.deep_view();
    let options = split_str(w[3].as_str(), Sep::Char(','));
    let ghost opts = options.deep_view();
    let mut total: u64 = 0;
    let mut i: usize = 0;
    assert(opts.take(0) =~= Seq::<Seq<char>>::empty());
    while i < options.len()
        invariant
            0 <= i <= options.len(),
            opts == options.deep_view(),
            ws == words(line@),
            ws.len() == 6,
            !is_comment(line@),
            opts == split_seq(ws[3], Sep::Char(',')),
            total == flag_sum(opts.take(i as int)),
        decreases options.len() - i,
    {
        assert(opts.take(i + 1).drop_last() =~= opts.take(i as int));
        assert(opts.take(i + 1).last() == options[i as int]@);
        match Flag::from_name(options[i].as_str()) {
            Some(f) => {
                let v = f.value();
                if total > u64::MAX - v {
                    proof {
                        lemma_flag_sum_prefix(opts, i + 1);
                        assert(entry_flag_total(line@) >= flag_sum(opts));
                    }
                    return false;
                }
                total = total + v;
            },
            None => {},
        }
        i = i + 1;
    }
    assert(opts.take(i as int) =~= opts);
    let root = str_eq(w[0].as_str(), "/");
    if root {
        total <= u64::MAX - 32
    } else {
        true
    }
}

/// Reads one line of `/etc/fstab`
///
/// # Errors
///
/// * The line does not have six fields (`FstabParse`),
/// * The source is a lookup of an unknown kind (`FstabParse`)
pub fn parse_fstab_line(line: &str) -> (r: Result<Option<FstabEntry>, ErrorTrace>)
    requires
        fstab_line_fits(line@),
    ensures
        fstab_result_view(r) == spec_fstab_line(line@),
{
    if starts_with(line, "#") {
        return Ok(None);
    }
    let w = split_words(line);
    let ghost ws = w.deep_view();
    if w.len() != 6 {
        let mut m = String::from_str("Expected a line with 6 elements, but found ");
        let d = u64_to_decimal(w.len() as u64);
        m.append(d.as_str());
        return Err(Error::FstabParse.trace(m.as_str()));
    }
    let raw = w[0].as_str();
    let source = if str_eq(raw, "auto") || str_eq(raw, "none") {
        FstabSource::Infer
    } else {
        match split_once(raw, '=') {
            Some((key, id)) => match LookupKind::from_key(key.as_str()) {
                Some(k) => FstabSource::Lookup(k, id),
                None => {
                    let mut m = String::from_str("Unknown lookup type: ");
                    m.append(key.as_str());
                    return Err(Error::FstabParse.trace(m.as_str()));
                },
            },
            None => FstabSource::Path(w[0].clone()),
        }
    };
    let fs = w[2].as_str();
    let fs_type = if str_eq(fs, "auto") || str_eq(fs, "none") {
        None
    } else {
        Some(w[2].clone())
    };
    let options = split_str(w[3].as_str(), Sep::Char(','));
    let ghost opts = options.deep_view();
    let mut total: u64 = 0;
    let mut custom = Opts::new();
    let mut i: usize = 0;
    proof {
        assert(opts.take(0) =~= Seq::<Seq<char>>::empty());
        lemma_flag_sum_prefix(opts, 0);
    }
    while i < options.len()
        invariant
            0 <= i <= options.len(),
            opts == options.deep_view(),
            ws == w.deep_view(),
            opts == split_seq(ws[3], Sep::Char(',')),
            ws == words(line@),
            ws.len() == 6,
            !is_comment(line@),
            fstab_line_fits(line@),
            total == flag_sum(opts.take(i as int)),
            strings(custom.0@) == custom_options(opts.take(i as int)),
        decreases options.len() - i,
    {
        assert(opts.take(i + 1).drop_last() =~= opts.take(i as int));
        assert(opts.take(i + 1).last() == options[i as int]@);
        proof {
            lemma_flag_sum_prefix(opts, i + 1);
            lemma_flag_sum_prefix(opts, i as int);
        }
        let o = options[i].as_str();
        match Flag::from_name(o) {
            Some(f) => {
                total = total + f.value();
            },
            None => {
                if !str_eq(o, "defaults") {
                    let ghost before = custom.0@;
                    custom.push(options[i].clone());
                    proof {
                        assert(strings(custom.0@) =~= strings(before).push(options[i as int]@));
                    }
                }
            },
        }
        i = i + 1;
    }
    assert(opts.take(i as int) =~= opts);
    let is_root = match &source {
        FstabSource::Path(p) => str_eq(p.as_str(), "/"),
        _ => false,
    };
    proof {
        if ws[0] == "/"@ {
            reveal_strlit("/");
            reveal_strlit("auto");
            reveal_strlit("none");
            assert(ws[0] != "auto"@);
            assert(ws[0] != "none"@);
            assert(split_once_seq(ws[0], '=') is None) by {
                if crate::text::has_sep(ws[0], Sep::Char('=')) {
                    let k = crate::text::first_sep(ws[0], Sep::Char('='));
                    assert(ws[0][k] == '=');
                }
            }
        }
    }
    if is_root {
        total = total + Flag::Remount.value();
    }
    let opts_out = custom.empty_none();
    Ok(Some(FstabEntry { source, dest: w[1].clone(), fs_type, flags: Flags(total), opts: opts_out }))
}

/// Each flag is read back from its own name.
pub proof fn law_flag_name_roundtrip(f: Flag)
    ensures
        Flag::spec_from_name(f.spec_name()) == Some(f),
{
    reveal_strlit("ro");
    reveal_strlit("nosuid");
    reveal_strlit("nodev");
    reveal_strlit("noexec");
    reveal_strlit("remount");
    reveal_strlit("bind");
    reveal_strlit("private");
    assert("ro"@.len() == 2 && "nosuid"@.len() == 6 && "nodev"@.len() == 5 && "noexec"@.len() == 6
        && "remount"@.len() == 7 && "bind"@.len() == 4 && "private"@.len() == 7);
    assert("nosuid"@[2] != "noexec"@[2]);
    assert("remount"@[0] != "private"@[0]);
    assert("ro"@ != "nosuid"@ && "ro"@ != "nodev"@ && "ro"@ != "noexec"@ && "ro"@ != "remount"@
        && "ro"@ != "bind"@ && "ro"@ != "private"@);
    assert("nosuid"@ != "nodev"@ && "nosuid"@ != "noexec"@ && "nosuid"@ != "remount"@ && "nosuid"@
        != "bind"@ && "nosuid"@ != "private"@);
    assert("nodev"@ != "noexec"@ && "nodev"@ != "remount"@ && "nodev"@ != "bind"@ && "nodev"@
        != "private"@);
    assert("noexec"@ != "remount"@ && "noexec"@ != "bind"@ && "noexec"@ != "private"@);
    assert("remount"@ != "bind"@ && "remount"@ != "private"@);
    assert("bind"@ != "private"@);
}

/// How many of `options` are `name`
pub open spec fn times_named(options: Seq<Seq<char>>, name: Seq<char>) -> nat {
    options.filter(|o: Seq<char>| o == name).len()
}

/// The mount flags an option list names, each bit counted once per mention:
/// `ro` 1, `nosuid` 2, `nodev` 4, `noexec` 8, `remount` 32, `bind` 4096 and
/// `private` 262144
pub open spec fn named_flag_bits(options: Seq<Seq<char>>) -> int {
    (times_named(options, "ro"@) * 1 + times_named(options, "nosuid"@) * 2 + times_named(options, "nodev"@)
        * 4 + times_named(options, "noexec"@) * 8 + times_named(options, "remount"@) * 32
        + times_named(options, "bind"@) * 4096 + times_named(options, "private"@) * 262144) as int
}

/// Whether an option is handed to the filesystem: it names no mount flag and
/// is not `defaults`
pub open spec fn filesystem_option(o: Seq<char>) -> bool {
    !(o == "ro"@ || o == "nosuid"@ || o == "nodev"@ || o == "noexec"@ || o == "remount"@ || o == "bind"@
        || o == "private"@ || o == "defaults"@)
}

proof fn lemma_times_named_last(options: Seq<Seq<char>>, name: Seq<char>)
    requires
        options.len() > 0,
    ensures
        times_named(options, name) == times_named(options.drop_last(), name) + if options.last() == name {
            1int
        } else {
            0int
        },
{
    reveal(Seq::filter);
}

proof fn lemma_flag_names_distinct()
    ensures
        "ro"@ != "nosuid"@ && "ro"@ != "nodev"@ && "ro"@ != "noexec"@ && "ro"@ != "remount"@ && "ro"@
            != "bind"@ && "ro"@ != "private"@,
        "nosuid"@ != "nodev"@ && "nosuid"@ != "noexec"@ && "nosuid"@ != "remount"@ && "nosuid"@
            != "bind"@ && "nosuid"@ != "private"@,
        "nodev"@ != "noexec"@ && "nodev"@ != "remount"@ && "nodev"@ != "bind"@ && "nodev"@ != "private"@,
        "noexec"@ != "remount"@ && "noexec"@ != "bind"@ && "noexec"@ != "private"@,
        "remount"@ != "bind"@ && "remount"@ != "private"@,
        "bind"@ != "private"@,
{
    reveal_strlit("ro");
    reveal_strlit("nosuid");
    reveal_strlit("nodev");
    reveal_strlit("noexec");
    reveal_strlit("remount");
    reveal_strlit("bind");
    reveal_strlit("private");
    assert("ro"@.len() == 2 && "nosuid"@.len() == 6 && "nodev"@.len() == 5 && "noexec"@.len() == 6
        && "remount"@.len() == 7 && "bind"@.len() == 4 && "private"@.len() == 7);
    assert("nosuid"@[2] != "noexec"@[2]);
    assert("remount"@[0] != "private"@[0]);
}

proof fn lemma_flag_sum_counts(options: Seq<Seq<char>>)
    ensures
        flag_sum(options) == named_flag_bits(options),
    decreases options.len(),
{
    if options.len() == 0 {
        reveal(Seq::filter);
    } else {
        let init = options.drop_last();
        lemma_flag_sum_counts(init);
        lemma_flag_names_distinct();
        lemma_times_named_last(options, "ro"@);
        lemma_times_named_last(options, "nosuid"@);
        lemma_times_named_last(options, "nodev"@);
        lemma_times_named_last(options, "noexec"@);
        lemma_times_named_last(options, "remount"@);
        lemma_times_named_last(options, "bind"@);
        lemma_times_named_last(options, "private"@);
    }
}

proof fn lemma_custom_is_filter(options: Seq<Seq<char>>)
    ensures
        custom_options(options) == options.filter(|o: Seq<char>| filesystem_option(o)),
    decreases options.len(),
{
    reveal(Seq::filter);
    if options.len() > 0 {
        lemma_custom_is_filter(options.drop_last());
    }
}

/// Every comma-separated option of an fstab line's fourth field is read: the
/// entry's flags add up the bit of each mount flag the field names, once per
/// mention (and `remount` again for the root filesystem), and its
/// filesystem options are all the field's other options but `defaults`, in
/// order.
pub proof fn law_fstab_reads_every_option(line: Seq<char>)
    requires
        !is_comment(line),
        words(line).len() == 6,
        spec_fstab_source(words(line)[0]) is Ok,
        fstab_line_fits(line),
    ensures
        ({
            let w = words(line);
            let options = split_seq(w[3], Sep::Char(','));
            let others = options.filter(|o: Seq<char>| filesystem_option(o));
            spec_fstab_line(line) matches Ok(Some(e)) && e.dest == w[1] && e.fs_type == (if w[2] == "auto"@
                || w[2] == "none"@ {
                None
            } else {
                Some(w[2])
            }) && e.flags == named_flag_bits(options) + (if w[0]
                == "/"@ {
                32int
            } else {
                0int
            }) && e.opts == (if others.len() == 0 {
                None
            } else {
                Some(others)
            })
        }),
{
    let w = words(line);
    let options = split_seq(w[3], Sep::Char(','));
    lemma_flag_sum_counts(options);
    lemma_flag_sum_nonneg(options);
    lemma_custom_is_filter(options);
}

proof fn lemma_lookup_source(key: Seq<char>, kind: LookupKind, id: Seq<char>)
    requires
        LookupKind::spec_from_key(key) == Some(kind),
        !key.contains('='),
        key.len() >= 2,
    ensures
        spec_fstab_source(key + seq!['='] + id) == Ok::<FstabSourceView, ErrorTraceView>(
            FstabSourceView::Lookup(kind, id),
        ),
{
    let t = key + seq!['='] + id;
    crate::init::lemma_value_piece(t, key, id);
    reveal_strlit("auto");
    reveal_strlit("none");
    if t == "auto"@ || t == "none"@ {
        assert(t.len() == 4);
        assert(t[key.len() as int] == '=');
        assert(!("auto"@.contains('=')));
        assert(!("none"@.contains('=')));
        if t == "auto"@ {
            assert("auto"@[key.len() as int] == '=');
        } else {
            assert("none"@[key.len() as int] == '=');
        }
    }
}

/// An fstab source `KEY=id` looks the device up by that key (`PARTUUID`,
/// `UUID`, `LABEL` or `ID`) with all of the text after the `=` as its
/// identifier, whatever that text holds.
pub proof fn law_fstab_lookup_whole_id(id: Seq<char>)
    ensures
        spec_fstab_source("PARTUUID"@ + seq!['='] + id) == Ok::<FstabSourceView, ErrorTraceView>(
            FstabSourceView::Lookup(LookupKind::PartUuid, id),
        ),
        spec_fstab_source("UUID"@ + seq!['='] + id) == Ok::<FstabSourceView, ErrorTraceView>(
            FstabSourceView::Lookup(LookupKind::Uuid, id),
        ),
        spec_fstab_source("LABEL"@ + seq!['='] + id) == Ok::<FstabSourceView, ErrorTraceView>(
            FstabSourceView::Lookup(LookupKind::Label, id),
        ),
        spec_fstab_source("ID"@ + seq!['='] + id) == Ok::<FstabSourceView, ErrorTraceView>(
            FstabSourceView::Lookup(LookupKind::Id, id),
        ),
{
    reveal_strlit("PARTUUID");
    reveal_strlit("UUID");
    reveal_strlit("LABEL");
    reveal_strlit("ID");
    assert("PARTUUID"@.len() == 8 && "UUID"@.len() == 4 && "LABEL"@.len() == 5 && "ID"@.len() == 2);
    assert("UUID"@ != "PARTUUID"@);
    assert("LABEL"@ != "PARTUUID"@ && "LABEL"@ != "UUID"@);
    assert("ID"@ != "PARTUUID"@ && "ID"@ != "UUID"@ && "ID"@ != "LABEL"@);
    assert(!"PARTUUID"@.contains('=')) by {
        assert forall|i: int| 0 <= i < 8 implies "PARTUUID"@[i] != '=' by {}
    }
    assert(!"UUID"@.contains('=')) by {
        assert forall|i: int| 0 <= i < 4 implies "UUID"@[i] != '=' by {}
    }
    assert(!"LABEL"@.contains('=')) by {
        assert forall|i: int| 0 <= i < 5 implies "LABEL"@[i] != '=' by {}
    }
    assert(!"ID"@.contains('=')) by {
        assert forall|i: int| 0 <= i < 2 implies "ID"@[i] != '=' by {}
    }
    lemma_lookup_source("PARTUUID"@, LookupKind::PartUuid, id);
    lemma_lookup_source("UUID"@, LookupKind::Uuid, id);
    lemma_lookup_source("LABEL"@, LookupKind::Label, id);
    lemma_lookup_source("ID"@, LookupKind::Id, id);
}

} // verus!
