//! File identifiers, open modes and file attributes of version 1.

use vstd::prelude::*;

use crate::rpccore::{CodeConvert, CodeValueError};
use crate::text::{push_binary, push_decimal, push_str, spec_binary, spec_decimal, string_of};

verus! {

// ===========================================================================
// Server file id
// ===========================================================================

// The flag constants of file kinds, open flags and open modes keep clear of
// the bits that each type reserves.
proof fn lemma_flag_constants()
    by (bit_vector)
    ensures
        0x80u8 & 7u8 == 0,
        0x40u8 & 7u8 == 0,
        0x20u8 & 7u8 == 0,
        0x10u8 & 7u8 == 0,
        0x08u8 & 7u8 == 0,
        0u8 & 7u8 == 0,
        0xf8u8 & 7u8 == 0,
        0x80u8 & 0x3fu8 == 0,
        0x40u8 & 0x3fu8 == 0,
        0u8 & 0x3fu8 == 0,
        0xc0u8 & 0x3fu8 == 0,
        0u8 & 0x3cu8 == 0,
        0x80u8 | 0x10u8 == 0x90u8,
        0x80u8 | 0x40u8 == 0xc0u8,
{
}

/// The set of kind flags that every file kind lies within.
pub open spec fn filekind_all_bits() -> u8 {
    0b1111_1000
}

/// The kind of a server file: a set of flags.
///
/// The flags are `dir` (0x80), `append` (0x40), `excl` (0x20), `auth`
/// (0x10) and `tmp` (0x08); a plain file (`file`) has none.
#[derive(Debug, Clone, Copy, PartialEq, Eq, PartialOrd, Ord, Hash, Structural)]
pub struct FileKind {
    bits: u8,
}

impl FileKind {
    #[verifier::type_invariant]
    spec fn well_formed(self) -> bool {
        self.bits & 0b0000_0111 == 0
    }
}

impl View for FileKind {
    type V = u8;

    /// The flags, as bits.
    closed spec fn view(&self) -> u8 {
        self.bits
    }
}

/// Whether a file kind's bits hold both a directory flag and an auth or
/// append flag, which no file may have.
pub open spec fn filekind_is_valid(bits: u8) -> bool {
    !((bits & 0b1001_0000) == 0b1001_0000 || (bits & 0b1100_0000) == 0b1100_0000)
}

impl FileKind {
    /// Two kinds with the same bits are the same kind; the bits of a kind
    /// lie within `filekind_all_bits`.
    pub proof fn lemma_view(a: FileKind, b: FileKind)
        ensures
            a@ == b@ ==> a == b,
    {
    }

    /// The kind whose bits are `b`.
    pub closed spec fn spec_from_bits(b: u8) -> FileKind {
        FileKind { bits: b }
    }

    /// The kind built from bits has those bits.
    pub proof fn lemma_spec_from_bits(b: u8)
        ensures
            FileKind::spec_from_bits(b)@ == b,
    {
    }

    /// A directory.
    pub fn dir() -> (r: FileKind)
        ensures
            r@ == 0b1000_0000u8,
    {
        proof {
            lemma_flag_constants();
        }
        FileKind { bits: 0b1000_0000 }
    }

    /// A file that may only be appended to.
    pub fn append() -> (r: FileKind)
        ensures
            r@ == 0b0100_0000u8,
    {
        proof {
            lemma_flag_constants();
        }
        FileKind { bits: 0b0100_0000 }
    }

    /// A file that only one client may use at a time.
    pub fn excl() -> (r: FileKind)
        ensures
            r@ == 0b0010_0000u8,
    {
        proof {
            lemma_flag_constants();
        }
        FileKind { bits: 0b0010_0000 }
    }

    /// An authentication file.
    pub fn auth() -> (r: FileKind)
        ensures
            r@ == 0b0001_0000u8,
    {
        proof {
            lemma_flag_constants();
        }
        FileKind { bits: 0b0001_0000 }
    }

    /// A temporary file.
    pub fn tmp() -> (r: FileKind)
        ensures
            r@ == 0b0000_1000u8,
    {
        proof {
            lemma_flag_constants();
        }
        FileKind { bits: 0b0000_1000 }
    }

    /// A plain file: no flags.
    pub fn file() -> (r: FileKind)
        ensures
            r@ == 0u8,
    {
        proof {
            lemma_flag_constants();
        }
        FileKind { bits: 0 }
    }

    /// Every flag.
    pub fn all() -> (r: FileKind)
        ensures
            r@ == filekind_all_bits(),
    {
        proof {
            lemma_flag_constants();
        }
        FileKind { bits: 0b1111_1000 }
    }

    /// The kind with exactly the given bits, if they are all kind flags.
    pub fn from_bits(bits: u8) -> (r: Option<FileKind>)
        ensures
            r is Some <==> bits & 0b0000_0111 == 0,
            r matches Some(k) ==> k@ == bits,
    {
        if bits & 0b0000_0111 == 0 {
            Some(FileKind { bits: bits })
        } else {
            None
        }
    }

    /// The flags, as bits.
    pub fn bits(&self) -> (r: u8)
        ensures
            r == self@,
            r & 0b0000_0111 == 0,
    {
        proof {
            use_type_invariant(self);
        }
        self.bits
    }

    /// Whether every flag of `other` is set in `self`.
    pub fn contains(&self, other: FileKind) -> (r: bool)
        ensures
            r == (self@ & other@ == other@),
    {
        self.bits & other.bits == other.bits
    }

    /// Whether some flag of `other` is set in `self`.
    pub fn intersects(&self, other: FileKind) -> (r: bool)
        ensures
            r == (self@ & other@ != 0),
    {
        self.bits & other.bits != 0
    }

    /// The flags of either kind.
    pub fn union(self, other: FileKind) -> (r: FileKind)
        ensures
            r@ == self@ | other@,
    {
        proof {
            use_type_invariant(&self);
            use_type_invariant(&other);
            let a = self.bits;
            let b = other.bits;
            assert((a & 7 == 0 && b & 7 == 0) ==> (a | b) & 7 == 0) by (bit_vector);
        }
        FileKind { bits: self.bits | other.bits }
    }

    /// Whether the kind is one that a file may have: no directory that is
    /// also an auth file or an append-only file.
    pub fn is_valid(&self) -> (r: bool)
        ensures
            r == filekind_is_valid(self@),
    {
        let dir_auth = FileKind::dir().union(FileKind::auth());
        let dir_append = FileKind::dir().union(FileKind::append());
        proof {
            lemma_flag_constants();
        }
        !(self.contains(dir_auth) || self.contains(dir_append))
    }
}

/// The identifier of a file on the server.
#[derive(Debug, Copy, Clone, PartialEq, Eq, PartialOrd, Ord, Hash, Structural)]
pub struct FileID {
    pub kind: FileKind,
    pub version: u32,
    pub path: u64,
}

impl FileID {
    /// A file id of the given kind, version and path.
    pub fn new(kind: FileKind, version: u32, path: u64) -> (r: FileID)
        ensures
            r == (FileID { kind, version, path }),
    {
        FileID { kind: kind, version: version, path: path }
    }

    /// Whether the id's kind is valid.
    pub fn is_valid(&self) -> (r: bool)
        ensures
            r == filekind_is_valid(self.kind@),
    {
        self.kind.is_valid()
    }
}

impl Default for FileID {
    fn default() -> (r: FileID)
        ensures
            r.kind@ == 0u8,
            r.version == 0,
            r.path == 0,
    {
        FileID::new(FileKind::file(), 0, 0)
    }
}

// ===========================================================================
// File open mode
// ===========================================================================

/// The flags that an open mode may carry.
#[derive(Debug, Clone, Copy, PartialEq, Eq, PartialOrd, Ord, Hash, Structural)]
pub struct OpenFlag {
    bits: u8,
}

impl OpenFlag {
    #[verifier::type_invariant]
    spec fn well_formed(self) -> bool {
        self.bits & 0b0011_1111 == 0
    }
}

impl View for OpenFlag {
    type V = u8;

    /// The flags, as bits.
    closed spec fn view(&self) -> u8 {
        self.bits
    }
}

impl OpenFlag {
    /// Two flag sets with the same bits are the same set.
    pub proof fn lemma_view(a: OpenFlag, b: OpenFlag)
        ensures
            a@ == b@ ==> a == b,
    {
    }

    /// Truncate the file when it is opened.
    pub fn otrunc() -> (r: OpenFlag)
        ensures
            r@ == 0b1000_0000u8,
    {
        proof {
            lemma_flag_constants();
        }
        OpenFlag { bits: 0b1000_0000 }
    }

    /// Remove the file when it is closed.
    pub fn orclose() -> (r: OpenFlag)
        ensures
            r@ == 0b0100_0000u8,
    {
        proof {
            lemma_flag_constants();
        }
        OpenFlag { bits: 0b0100_0000 }
    }

    /// No flag.
    pub fn onoflag() -> (r: OpenFlag)
        ensures
            r@ == 0u8,
    {
        proof {
            lemma_flag_constants();
        }
        OpenFlag { bits: 0 }
    }

    /// Every flag.
    pub fn all() -> (r: OpenFlag)
        ensures
            r@ == 0b1100_0000u8,
    {
        proof {
            lemma_flag_constants();
        }
        OpenFlag { bits: 0b1100_0000 }
    }

    /// The flag set with exactly the given bits, if they are all flags.
    pub fn from_bits(bits: u8) -> (r: Option<OpenFlag>)
        ensures
            r is Some <==> bits & 0b0011_1111 == 0,
            r matches Some(f) ==> f@ == bits,
    {
        if bits & 0b0011_1111 == 0 {
            Some(OpenFlag { bits: bits })
        } else {
            None
        }
    }

    /// The flags, as bits.
    pub fn bits(&self) -> (r: u8)
        ensures
            r == self@,
            r & 0b0011_1111 == 0,
    {
        proof {
            use_type_invariant(self);
        }
        self.bits
    }

    /// Whether every flag of `other` is set in `self`.
    pub fn contains(&self, other: OpenFlag) -> (r: bool)
        ensures
            r == (self@ & other@ == other@),
    {
        self.bits & other.bits == other.bits
    }

    /// Whether some flag of `other` is set in `self`.
    pub fn intersects(&self, other: OpenFlag) -> (r: bool)
        ensures
            r == (self@ & other@ != 0),
    {
        self.bits & other.bits != 0
    }

    /// The flags of either set.
    pub fn union(self, other: OpenFlag) -> (r: OpenFlag)
        ensures
            r@ == self@ | other@,
    {
        proof {
            use_type_invariant(&self);
            use_type_invariant(&other);
            let a = self.bits;
            let b = other.bits;
            assert((a & 0x3f == 0 && b & 0x3f == 0) ==> (a | b) & 0x3f == 0) by (bit_vector);
        }
        OpenFlag { bits: self.bits | other.bits }
    }

    /// Sets the flags of `other`.
    pub fn insert(&mut self, other: OpenFlag)
        ensures
            final(self)@ == old(self)@ | other@,
    {
        proof {
            use_type_invariant(&*self);
            use_type_invariant(&other);
            let a = self.bits;
            let b = other.bits;
            assert((a & 0x3f == 0 && b & 0x3f == 0) ==> (a | b) & 0x3f == 0) by (bit_vector);
        }
        self.bits = self.bits | other.bits;
    }

    /// Clears the flags of `other`.
    pub fn remove(&mut self, other: OpenFlag)
        ensures
            final(self)@ == old(self)@ & !other@,
    {
        proof {
            use_type_invariant(&*self);
            let a = self.bits;
            let b = other.bits;
            assert(a & 0x3f == 0 ==> (a & !b) & 0x3f == 0) by (bit_vector);
        }
        self.bits = self.bits & !other.bits;
    }

    /// Flips the flags of `other`.
    pub fn toggle(&mut self, other: OpenFlag)
        ensures
            final(self)@ == old(self)@ ^ other@,
    {
        proof {
            use_type_invariant(&*self);
            use_type_invariant(&other);
            let a = self.bits;
            let b = other.bits;
            assert((a & 0x3f == 0 && b & 0x3f == 0) ==> (a ^ b) & 0x3f == 0) by (bit_vector);
        }
        self.bits = self.bits ^ other.bits;
    }
}

/// The kind of I/O that a file is opened for.
#[derive(Debug, PartialEq, Eq, Clone, Copy, Structural)]
pub enum OpenKind {
    /// Reading.
    Read,
    /// Writing.
    Write,
    /// Reading and writing.
    ReadWrite,
    /// Execution.
    Execute,
}

impl CodeConvert for OpenKind {
    type int_type = u8;

    open spec fn spec_code(&self) -> u64 {
        match self {
            OpenKind::Read => 0,
            OpenKind::Write => 1,
            OpenKind::ReadWrite => 2,
            OpenKind::Execute => 3,
        }
    }

    open spec fn spec_from_code(n: u64) -> Option<OpenKind> {
        if n == 0 {
            Some(OpenKind::Read)
        } else if n == 1 {
            Some(OpenKind::Write)
        } else if n == 2 {
            Some(OpenKind::ReadWrite)
        } else if n == 3 {
            Some(OpenKind::Execute)
        } else {
            None
        }
    }

    open spec fn spec_max_number() -> u64 {
        3
    }

    open spec fn spec_int_max() -> u64 {
        u8::MAX as u64
    }

    open spec fn spec_int_value(n: u8) -> u64 {
        n as u64
    }

    proof fn lemma_code_roundtrip(c: OpenKind) {
    }

    proof fn lemma_from_code(n: u64) {
    }

    fn from_number(num: u8) -> (r: Result<OpenKind, CodeValueError>) {
        assert(Self::spec_int_value(num) == num as u64);
        Self::from_u64(num as u64)
    }

    fn from_u64(num: u64) -> (r: Result<OpenKind, CodeValueError>) {
        match num {
            0 => Ok(OpenKind::Read),
            1 => Ok(OpenKind::Write),
            2 => Ok(OpenKind::ReadWrite),
            3 => Ok(OpenKind::Execute),
            _ => Err(CodeValueError { code: num }),
        }
    }

    fn to_number(&self) -> (r: u8) {
        match self {
            OpenKind::Read => 0,
            OpenKind::Write => 1,
            OpenKind::ReadWrite => 2,
            OpenKind::Execute => 3,
        }
    }

    fn to_u64(&self) -> (r: u64) {
        match self {
            OpenKind::Read => 0,
            OpenKind::Write => 1,
            OpenKind::ReadWrite => 2,
            OpenKind::Execute => 3,
        }
    }

    fn max_number() -> (r: u64) {
        3
    }

    fn cast_number(n: u64) -> (r: Option<u8>) {
        if n <= u8::MAX as u64 {
            Some(n as u8)
        } else {
            None
        }
    }
}

// The bits of an open mode that hold its kind.
const OPENKIND_BITS: u8 = 0b0000_0011;

/// An open mode: flags in the high two bits and a kind in the low two bits.
#[derive(Debug, PartialEq, Eq, Copy, Clone, Structural)]
pub struct OpenMode {
    mode: u8,
}

impl OpenMode {
    #[verifier::type_invariant]
    spec fn well_formed(self) -> bool {
        self.mode & 0b0011_1100 == 0
    }
}

impl View for OpenMode {
    type V = u8;

    /// The mode, as bits.
    closed spec fn view(&self) -> u8 {
        self.mode
    }
}

/// The flags of a mode's bits.
pub open spec fn mode_flags(mode: u8) -> u8 {
    mode & 0b1100_0000
}

/// The kind number of a mode's bits.
pub open spec fn mode_kind(mode: u8) -> u8 {
    mode & 0b0000_0011
}

/// An open mode with an invalid bit set.
#[derive(Debug, PartialEq, Eq, Structural)]
pub struct OpenModeError {
    pub bits: u8,
}

/// The text of an [`OpenModeError`].
pub open spec fn open_mode_message(bits: u8) -> Seq<char> {
    "Invalid bits set: "@ + spec_binary(bits as nat)
}

impl OpenModeError {
    /// The error's text.
    pub fn to_string(&self) -> (r: String)
        ensures
            r@ == open_mode_message(self.bits),
    {
        let mut s = string_of("Invalid bits set: ");
        push_binary(&mut s, self.bits as u64);
        s
    }
}

impl OpenMode {
    /// The bits that no open mode may have set.
    pub const INVALID_BITS: u8 = 0b0011_1100;

    /// Two modes with the same bits are the same mode.
    pub proof fn lemma_view(a: OpenMode, b: OpenMode)
        ensures
            a@ == b@ ==> a == b,
    {
    }

    /// The mode with the given bits.
    ///
    /// # Errors
    ///
    /// `OpenModeError` when a bit of `INVALID_BITS` is set.
    pub fn from_bits(bits: u8) -> (r: Result<OpenMode, OpenModeError>)
        ensures
            match r {
                Ok(m) => bits & 0b0011_1100 == 0 && m@ == bits,
                Err(e) => bits & 0b0011_1100 != 0 && e.bits == bits,
            },
    {
        if OpenMode::INVALID_BITS & bits != 0 {
            proof {
                assert(0x3cu8 & bits == bits & 0x3cu8) by (bit_vector);
            }
            return Err(OpenModeError { bits: bits });
        }
        proof {
            assert(0x3cu8 & bits == bits & 0x3cu8) by (bit_vector);
        }
        Ok(OpenMode { mode: bits })
    }

    /// The mode, as bits.
    pub fn bits(&self) -> (r: u8)
        ensures
            r == self@,
            r & 0b0011_1100 == 0,
    {
        proof {
            use_type_invariant(self);
        }
        self.mode
    }

    /// The mode's flags.
    pub fn flags(&self) -> (r: OpenFlag)
        ensures
            r@ == mode_flags(self@),
    {
        let cur = OpenFlag::all();
        let return_bits = self.mode & cur.bits();
        proof {
            let m = self.mode;
            assert((m & 0xc0u8) & 0x3f == 0) by (bit_vector);
        }
        OpenFlag::from_bits(return_bits).unwrap()
    }

    /// The mode's kind.
    pub fn kind(&self) -> (r: OpenKind)
        ensures
            r.spec_code() == mode_kind(self@),
    {
        let val = OPENKIND_BITS & self.mode;
        proof {
            let m = self.mode;
            assert(3u8 & m == m & 3u8 && (m & 3u8) <= 3) by (bit_vector);
        }
        OpenKind::from_number(val).unwrap()
    }

    /// The mode with the same flags and the kind `kind`.
    pub fn new_kind(self, kind: OpenKind) -> (r: OpenMode)
        ensures
            mode_flags(r@) == mode_flags(self@),
            mode_kind(r@) == kind.spec_code(),
    {
        let flags = self.mode & OpenFlag::all().bits();
        let k = kind.to_number();
        proof {
            let m = self.mode;
            assert(k <= 3 ==> {
                &&& ((m & 0xc0u8) | k) & 0x3c == 0
                &&& ((m & 0xc0u8) | k) & 0xc0 == m & 0xc0
                &&& ((m & 0xc0u8) | k) & 3 == k
            }) by (bit_vector);
        }
        OpenMode { mode: flags | k }
    }

    /// Replaces the mode's flags with `flags`, keeping its kind.
    pub fn replace_flags(&mut self, flags: OpenFlag)
        ensures
            mode_flags(final(self)@) == flags@,
            mode_kind(final(self)@) == mode_kind(old(self)@),
    {
        let kind = OPENKIND_BITS & self.mode;
        let f = flags.bits();
        proof {
            let m = self.mode;
            assert(f & 0x3f == 0 ==> {
                &&& (f | (3u8 & m)) & 0x3c == 0
                &&& (f | (3u8 & m)) & 0xc0 == f
                &&& (f | (3u8 & m)) & 3 == m & 3
            }) by (bit_vector);
        }
        self.mode = f | kind;
    }

    /// Sets the flags of `other`, keeping the kind.
    pub fn insert_flags(&mut self, other: OpenFlag)
        ensures
            mode_flags(final(self)@) == mode_flags(old(self)@) | other@,
            mode_kind(final(self)@) == mode_kind(old(self)@),
    {
        let mut flags = self.flags();
        flags.insert(other);
        self.replace_flags(flags);
    }

    /// Clears the flags of `other`, keeping the kind.
    pub fn remove_flags(&mut self, other: OpenFlag)
        ensures
            mode_flags(final(self)@) == mode_flags(old(self)@) & !other@,
            mode_kind(final(self)@) == mode_kind(old(self)@),
    {
        let mut flags = self.flags();
        flags.remove(other);
        self.replace_flags(flags);
    }

    /// Flips the flags of `other`, keeping the kind.
    pub fn toggle_flags(&mut self, other: OpenFlag)
        ensures
            mode_flags(final(self)@) == mode_flags(old(self)@) ^ other@,
            mode_kind(final(self)@) == mode_kind(old(self)@),
    {
        let mut flags = self.flags();
        flags.toggle(other);
        self.replace_flags(flags);
    }
}

/// What the flag operations of a mode do to its flags: flags inserted are
/// then set, flags removed are then clear, toggling the same flags twice
/// restores the flags, and no flag operation leaves the flag bits.
pub proof fn lemma_mode_flag_laws(mode: u8, other: u8)
    by (bit_vector)
    requires
        other & 0x3f == 0,
    ensures
        (mode_flags(mode) | other) & other == other,
        (mode_flags(mode) & !other) & other == 0,
        (mode_flags(mode) ^ other) ^ other == mode_flags(mode),
        (mode_flags(mode) | other) & 0x3f == 0,
        (mode_flags(mode) & !other) & 0x3f == 0,
        (mode_flags(mode) ^ other) & 0x3f == 0,
{
}

impl Default for OpenMode {
    fn default() -> (r: OpenMode)
        ensures
            r@ == 0u8,
    {
        proof {
            lemma_flag_constants();
        }
        OpenMode { mode: 0 }
    }
}

/// Builds an open mode from a kind and flags.
pub struct OpenModeBuilder {
    open_mode: OpenMode,
}

impl View for OpenModeBuilder {
    type V = u8;

    /// The bits of the mode built so far.
    closed spec fn view(&self) -> u8 {
        self.open_mode@
    }
}

impl Default for OpenModeBuilder {
    fn default() -> (r: OpenModeBuilder)
        ensures
            r@ == 0u8,
    {
        OpenModeBuilder { open_mode: OpenMode::default() }
    }
}

impl OpenModeBuilder {
    /// Adds the bits of a kind.
    pub fn kind(self, val: OpenKind) -> (r: OpenModeBuilder)
        ensures
            r@ == self@ | (val.spec_code() as u8),
    {
        let mut this = self;
        proof {
            use_type_invariant(&this.open_mode);
        }
        let k = val.to_number();
        let m = this.open_mode.mode;
        proof {
            assert((m & 0x3c == 0 && k <= 3) ==> (m | k) & 0x3c == 0) by (bit_vector);
        }
        this.open_mode = OpenMode { mode: m | k };
        this
    }

    /// Adds the bits of flags.
    pub fn flags(self, val: OpenFlag) -> (r: OpenModeBuilder)
        ensures
            r@ == self@ | val@,
    {
        let mut this = self;
        proof {
            use_type_invariant(&this.open_mode);
        }
        let f = val.bits();
        let m = this.open_mode.mode;
        proof {
            assert((m & 0x3c == 0 && f & 0x3f == 0) ==> (m | f) & 0x3c == 0) by (bit_vector);
        }
        this.open_mode = OpenMode { mode: m | f };
        this
    }

    /// The mode built.
    pub fn create(self) -> (r: OpenMode)
        ensures
            r@ == self@,
    {
        self.open_mode
    }
}

/// A builder of an open mode, starting from no kind bits and no flags.
pub fn openmode() -> (r: OpenModeBuilder)
    ensures
        r@ == 0u8,
{
    OpenModeBuilder::default()
}

// ===========================================================================
// Stat
// ===========================================================================

/// The mathematical form of a file's attributes.
pub struct StatView {
    pub size: u16,
    pub fileid: FileID,
    pub mode: u32,
    pub atime: u32,
    pub mtime: u32,
    pub length: u64,
    pub name: Seq<char>,
    pub uid: Seq<char>,
    pub gid: Seq<char>,
    pub muid: Seq<char>,
}

/// The number of bytes of the UTF-8 form of a string, as `str::len`
/// reports it.
pub open spec fn byte_len(s: Seq<char>) -> nat {
    (vstd::utf8::encode_utf8(s).len() as usize) as nat
}

/// The byte count of all of a stat's fields except its size, kept to 16
/// bits: the UTF-8 lengths of the four names plus the in-memory sizes of the
/// file id, the mode, the two times and the length.
pub open spec fn stat_size(v: StatView) -> u16 {
    ((byte_len(v.name) + byte_len(v.uid) + byte_len(v.gid) + byte_len(v.muid)
        + vstd::layout::size_of::<FileID>() + 4 + 4 + 4 + 8) % 65536) as u16
}

/// Read access to the attributes of a file.
pub trait ReadStat {
    /// The attributes.
    spec fn stat_view(&self) -> StatView;

    /// The byte count of all fields except the size, as computed from them.
    fn calculate_size(&self) -> (r: u16)
        ensures
            r == stat_size(self.stat_view()),
    ;

    /// The stored byte count of all fields except the size.
    fn size(&self) -> (r: u16)
        ensures
            r == self.stat_view().size,
    ;

    fn fileid(&self) -> (r: FileID)
        ensures
            r == self.stat_view().fileid,
    ;

    /// File attributes and permissions: the high 8 bits copy the file kind,
    /// the other 24 are permissions.
    fn mode(&self) -> (r: u32)
        ensures
            r == self.stat_view().mode,
    ;

    /// Last access time.
    fn atime(&self) -> (r: u32)
        ensures
            r == self.stat_view().atime,
    ;

    /// Last modification time.
    fn mtime(&self) -> (r: u32)
        ensures
            r == self.stat_view().mtime,
    ;

    /// Length of the file in bytes.
    fn length(&self) -> (r: u64)
        ensures
            r == self.stat_view().length,
    ;

    /// File name.
    fn name(&self) -> (r: &str)
        ensures
            r@ == self.stat_view().name,
    ;

    /// Owner name.
    fn uid(&self) -> (r: &str)
        ensures
            r@ == self.stat_view().uid,
    ;

    /// Group name.
    fn gid(&self) -> (r: &str)
        ensures
            r@ == self.stat_view().gid,
    ;

    /// Name of the user who last modified the file.
    fn muid(&self) -> (r: &str)
        ensures
            r@ == self.stat_view().muid,
    ;
}

/// The attributes of a file.
#[derive(Debug)]
pub struct StatData {
    /// Total byte count of all fields except for size.
    pub size: u16,
    pub fileid: FileID,
    /// File attributes and permissions: the high 8 bits copy the file kind,
    /// the other 24 are permissions.
    pub mode: u32,
    /// Last access time.
    pub atime: u32,
    /// Last modification time.
    pub mtime: u32,
    /// Length of the file in bytes.
    pub length: u64,
    /// File name.
    pub name: String,
    /// Owner name.
    pub uid: String,
    /// Group name.
    pub gid: String,
    /// Name of the user who last modified the file.
    pub muid: String,
}

impl StatData {
    /// The attributes, mathematically.
    pub open spec fn spec_view(&self) -> StatView {
        StatView {
            size: self.size,
            fileid: self.fileid,
            mode: self.mode,
            atime: self.atime,
            mtime: self.mtime,
            length: self.length,
            name: self.name@,
            uid: self.uid@,
            gid: self.gid@,
            muid: self.muid@,
        }
    }

    /// The byte count of all fields except the size, kept to 16 bits.
    pub fn calculate_size(&self) -> (r: u16)
        ensures
            r == stat_size(self.spec_view()),
    {
        let n1 = self.name.as_str().len() % 65536;
        let n2 = self.uid.as_str().len() % 65536;
        let n3 = self.gid.as_str().len() % 65536;
        let n4 = self.muid.as_str().len() % 65536;
        let fixed = (core::mem::size_of::<FileID>() % 65536) + core::mem::size_of::<u32>()
            + core::mem::size_of::<u32>() + core::mem::size_of::<u32>()
            + core::mem::size_of::<u64>();
        proof {
            broadcast use vstd::layout::layout_of_primitives;
            assert(vstd::layout::size_of::<u32>() == 4);
            assert(vstd::layout::size_of::<u64>() == 8);
        }
        let total = (n1 + n2 + n3 + n4 + fixed) % 65536;
        proof {
            let a = byte_len(self.name@);
            let b = byte_len(self.uid@);
            let c = byte_len(self.gid@);
            let d = byte_len(self.muid@);
            let f = vstd::layout::size_of::<FileID>();
            assert((a % 65536 + b % 65536 + c % 65536 + d % 65536 + (f % 65536 + 20)) % 65536
                == (a + b + c + d + f + 4 + 4 + 4 + 8) % 65536) by (nonlinear_arith);
        }
        total as u16
    }
}

/// The attributes of a file whose stored size matches its fields.
#[derive(Debug)]
pub struct FileStat {
    data: StatData,
}

/// The stored size of a stat does not match its fields.
#[derive(Debug, PartialEq, Eq, Structural)]
pub struct FromStatError {
    /// The size computed from the fields.
    pub expected_size: u16,
    /// The stored size.
    pub size: u16,
}

/// The text of a [`FromStatError`].
pub open spec fn from_stat_message(e: FromStatError) -> Seq<char> {
    "Expected size "@ + spec_decimal(e.expected_size as nat) + ", got size "@ + spec_decimal(
        e.size as nat,
    )
}

impl FromStatError {
    /// The error's text.
    pub fn to_string(&self) -> (r: String)
        ensures
            r@ == from_stat_message(*self),
    {
        let mut s = string_of("Expected size ");
        push_decimal(&mut s, self.expected_size as u64);
        push_str(&mut s, ", got size ");
        push_decimal(&mut s, self.size as u64);
        s
    }
}

impl FileStat {
    // Checks that the stored size matches the fields.
    fn validate_stat(self) -> (r: Result<Self, FromStatError>)
        ensures
            match r {
                Ok(fs) => fs.stat_view() == self.stat_view() && self.stat_view().size == stat_size(
                    self.stat_view(),
                ),
                Err(e) => e == (FromStatError {
                    expected_size: stat_size(self.stat_view()),
                    size: self.stat_view().size,
                }) && e.expected_size != e.size,
            },
    {
        let size = self.calculate_size();
        if size != self.data.size {
            Err(FromStatError { expected_size: size, size: self.data.size })
        } else {
            Ok(self)
        }
    }

    /// Copies the attributes of `stat`, checking that its stored size
    /// matches its fields.
    ///
    /// # Errors
    ///
    /// `FromStatError` when the stored size differs from the computed one.
    pub fn from_stat<T: ReadStat>(stat: T) -> (r: Result<FileStat, FromStatError>)
        ensures
            match r {
                Ok(fs) => fs.stat_view() == stat.stat_view() && stat.stat_view().size == stat_size(
                    stat.stat_view(),
                ),
                Err(e) => e == (FromStatError {
                    expected_size: stat_size(stat.stat_view()),
                    size: stat.stat_view().size,
                }) && e.expected_size != e.size,
            },
    {
        let data = StatData {
            size: stat.size(),
            fileid: stat.fileid(),
            mode: stat.mode(),
            atime: stat.atime(),
            mtime: stat.mtime(),
            length: stat.length(),
            name: string_of(stat.name()),
            uid: string_of(stat.uid()),
            gid: string_of(stat.gid()),
            muid: string_of(stat.muid()),
        };
        let ret = FileStat { data };
        ret.validate_stat()
    }
}

impl ReadStat for FileStat {
    closed spec fn stat_view(&self) -> StatView {
        self.data.spec_view()
    }

    fn calculate_size(&self) -> (r: u16) {
        self.data.calculate_size()
    }

    fn size(&self) -> (r: u16) {
        self.data.size
    }

    fn fileid(&self) -> (r: FileID) {
        self.data.fileid
    }

    fn mode(&self) -> (r: u32) {
        self.data.mode
    }

    fn atime(&self) -> (r: u32) {
        self.data.atime
    }

    fn mtime(&self) -> (r: u32) {
        self.data.mtime
    }

    fn length(&self) -> (r: u64) {
        self.data.length
    }

    fn name(&self) -> (r: &str) {
        self.data.name.as_str()
    }

    fn uid(&self) -> (r: &str) {
        self.data.uid.as_str()
    }

    fn gid(&self) -> (r: &str) {
        self.data.gid.as_str()
    }

    fn muid(&self) -> (r: &str) {
        self.data.muid.as_str()
    }
}

impl ReadStat for StatData {
    closed spec fn stat_view(&self) -> StatView {
        self.spec_view()
    }

    fn calculate_size(&self) -> (r: u16) {
        StatData::calculate_size(self)
    }

    fn size(&self) -> (r: u16) {
        self.size
    }

    fn fileid(&self) -> (r: FileID) {
        self.fileid
    }

    fn mode(&self) -> (r: u32) {
        self.mode
    }

    fn atime(&self) -> (r: u32) {
        self.atime
    }

    fn mtime(&self) -> (r: u32) {
        self.mtime
    }

    fn length(&self) -> (r: u64) {
        self.length
    }

    fn name(&self) -> (r: &str) {
        self.name.as_str()
    }

    fn uid(&self) -> (r: &str) {
        self.uid.as_str()
    }

    fn gid(&self) -> (r: &str) {
        self.gid.as_str()
    }

    fn muid(&self) -> (r: &str) {
        self.muid.as_str()
    }
}

// ===========================================================================
// Laws
// ===========================================================================

/// The codes of the open kinds are the fixed numbers of the low two mode
/// bits: read 0, write 1, read-write 2, execute 3; each number is read back
/// as its kind.
pub proof fn lemma_open_kind_codes()
    ensures
        OpenKind::Read.spec_code() == 0 && OpenKind::spec_from_code(0) == Some(OpenKind::Read),
        OpenKind::Write.spec_code() == 1 && OpenKind::spec_from_code(1) == Some(OpenKind::Write),
        OpenKind::ReadWrite.spec_code() == 2 && OpenKind::spec_from_code(2) == Some(
            OpenKind::ReadWrite,
        ),
        OpenKind::Execute.spec_code() == 3 && OpenKind::spec_from_code(3) == Some(
            OpenKind::Execute,
        ),
{
}

/// A mode built from a kind alone has that kind's number as its bits, and
/// reads back as that kind: `openmode().kind(k).create()` has the bits 0, 1,
/// 2 or 3 for read, write, read-write and execute.
pub proof fn lemma_mode_of_kind(k: OpenKind)
    ensures
        (0u8 | (k.spec_code() as u8)) == k.spec_code(),
        mode_kind((0u8 | (k.spec_code() as u8))) == k.spec_code(),
        mode_flags((0u8 | (k.spec_code() as u8))) == 0,
        k == OpenKind::Write ==> (0u8 | (k.spec_code() as u8)) == 1u8,
        k == OpenKind::ReadWrite ==> (0u8 | (k.spec_code() as u8)) == 2u8,
{
    let c = k.spec_code() as u8;
    assert(c <= 3);
    assert(c <= 3 ==> (0u8 | c) == c && c & 3 == c && c & 0xc0 == 0) by (bit_vector);
}

/// A kind is valid exactly when it is not a directory that is also an auth
/// file or an append-only file; so adding flags to an invalid kind never
/// makes it valid.
pub proof fn lemma_filekind_validity(bits: u8, more: u8)
    ensures
        filekind_is_valid(bits) <==> !(bits & 0x80 != 0 && bits & 0x50 != 0),
        !filekind_is_valid(bits) ==> !filekind_is_valid(bits | more),
{
    assert(filekind_is_valid(bits) <==> !(bits & 0x80 != 0 && bits & 0x50 != 0)) by (bit_vector);
    assert(!(!((bits & 0x90) == 0x90 || (bits & 0xc0) == 0xc0)) ==> ((((bits | more) & 0x90) == 0x90
        || ((bits | more) & 0xc0) == 0xc0))) by (bit_vector);
}

// Moving one summand moves a sum kept to 16 bits by the same amount.
proof fn lemma_mod_shift(x: int, a: int, b: int)
    ensures
        ((x + b) % 65536 - (x + a) % 65536 - (b - a)) % 65536 == 0,
{
    vstd::arithmetic::div_mod::lemma_fundamental_div_mod(x + b, 65536);
    vstd::arithmetic::div_mod::lemma_fundamental_div_mod(x + a, 65536);
    let q = (x + a) / 65536 - (x + b) / 65536;
    assert((x + b) % 65536 - (x + a) % 65536 - (b - a) == 65536 * q) by (nonlinear_arith)
        requires
            x + b == 65536 * ((x + b) / 65536) + (x + b) % 65536,
            x + a == 65536 * ((x + a) / 65536) + (x + a) % 65536,
            q == (x + a) / 65536 - (x + b) / 65536;
    vstd::arithmetic::div_mod::lemma_mod_multiples_basic(q, 65536);
    assert(65536 * q == q * 65536) by (nonlinear_arith);
}

/// The size of a stat counts each of its four names once, by its UTF-8
/// length: two stats that differ in one name only differ in size, modulo
/// 2^16, by the difference of that name's byte lengths; and a stat whose
/// names are all empty has the size of its fixed fields alone.
pub proof fn lemma_stat_size_counts_names(v: StatView, w: StatView)
    ensures
        w.uid == v.uid && w.gid == v.gid && w.muid == v.muid ==> (stat_size(w) - stat_size(v) - (
        byte_len(w.name) - byte_len(v.name))) % 65536 == 0,
        w.name == v.name && w.gid == v.gid && w.muid == v.muid ==> (stat_size(w) - stat_size(v) - (
        byte_len(w.uid) - byte_len(v.uid))) % 65536 == 0,
        w.name == v.name && w.uid == v.uid && w.muid == v.muid ==> (stat_size(w) - stat_size(v) - (
        byte_len(w.gid) - byte_len(v.gid))) % 65536 == 0,
        w.name == v.name && w.uid == v.uid && w.gid == v.gid ==> (stat_size(w) - stat_size(v) - (
        byte_len(w.muid) - byte_len(v.muid))) % 65536 == 0,
        byte_len(v.name) == 0 && byte_len(v.uid) == 0 && byte_len(v.gid) == 0 && byte_len(v.muid)
            == 0 ==> stat_size(v) == (vstd::layout::size_of::<FileID>() + 20) % 65536,
{
    let f = vstd::layout::size_of::<FileID>() + 4 + 4 + 4 + 8;
    let (n, u, g, m) = (byte_len(v.name), byte_len(v.uid), byte_len(v.gid), byte_len(v.muid));
    let (n2, u2, g2, m2) = (byte_len(w.name), byte_len(w.uid), byte_len(w.gid), byte_len(w.muid));
    lemma_mod_shift((u + g + m + f) as int, n as int, n2 as int);
    lemma_mod_shift((n + g + m + f) as int, u as int, u2 as int);
    lemma_mod_shift((n + u + m + f) as int, g as int, g2 as int);
    lemma_mod_shift((n + u + g + f) as int, m as int, m2 as int);
}

} // verus!
