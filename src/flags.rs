//! Bitmask flags that control how the matching engine behaves.
use libc::c_int;
use vstd::prelude::*;

verus! {

/// No special handling.
pub const NONE: c_int = 0x000_0000;

/// Print debugging messages to `stderr` (printed by the engine itself).
pub const DEBUG: c_int = 0x000_0001;

/// If the file queried is a symlink, follow it.
pub const SYMLINK: c_int = 0x000_0002;

/// If the file is compressed, unpack it and look at the contents.
pub const COMPRESS: c_int = 0x000_0004;

/// If the file is a block or character special device, open it and look in its contents.
pub const DEVICES: c_int = 0x000_0008;

/// Return a MIME type string, instead of a textual description.
pub const MIME_TYPE: c_int = 0x000_0010;

/// Return all matches, not just the first.
pub const CONTINUE: c_int = 0x000_0020;

/// Check the magic database for consistency and print warnings to `stderr`.
pub const CHECK: c_int = 0x000_0040;

/// Attempt to preserve the access time of files analyzed.
pub const PRESERVE_ATIME: c_int = 0x000_0080;

/// Don't translate unprintable characters to a `\ooo` octal representation.
pub const RAW: c_int = 0x000_0100;

/// Treat operating system errors while opening files and following symlinks as real
/// errors, instead of printing them in the result text.
pub const ERROR: c_int = 0x000_0200;

/// Return a MIME encoding, instead of a textual description.
pub const MIME_ENCODING: c_int = 0x000_0400;

/// A shorthand for `MIME_TYPE | MIME_ENCODING`.
pub const MIME: c_int = MIME_TYPE | MIME_ENCODING;

/// Return the Apple creator and type.
pub const APPLE: c_int = 0x000_0800;

/// Return a slash-separated list of extensions.
pub const EXTENSION: c_int = 0x100_0000;

/// Check inside compressed files but do not report compression.
pub const COMPRESS_TRANSP: c_int = 0x200_0000;

/// Every output mode that replaces the textual description.
pub const MAGIC_NODESC: c_int = EXTENSION | MIME | APPLE;

/// Don't look inside compressed files.
pub const NO_CHECK_COMPRESS: c_int = 0x000_1000;

/// Don't examine tar files.
pub const NO_CHECK_TAR: c_int = 0x000_2000;

/// Don't consult magic files.
pub const NO_CHECK_SOFT: c_int = 0x000_4000;

/// Don't check for EMX application type (only on EMX).
pub const NO_CHECK_APPTYPE: c_int = 0x000_8000;

/// Don't print ELF details.
pub const NO_CHECK_ELF: c_int = 0x001_0000;

/// Don't check for various types of text files.
pub const NO_CHECK_TEXT: c_int = 0x002_0000;

/// Don't get extra information on MS Composite Document Files.
pub const NO_CHECK_CDF: c_int = 0x004_0000;

/// Don't check CSV files.
pub const NO_CHECK_CSV: c_int = 0x008_0000;

/// Don't look for known tokens inside ascii files.
pub const NO_CHECK_TOKENS: c_int = 0x010_0000;

/// Don't check text encodings.
pub const NO_CHECK_ENCODING: c_int = 0x020_0000;

/// Don't check JSON.
pub const NO_CHECK_JSON: c_int = 0x040_0000;

/// Disable every built-in check: the union of all the `NO_CHECK_*` exclusion bits.
pub const NO_CHECK_BUILTIN: c_int = NO_CHECK_COMPRESS | NO_CHECK_TAR | NO_CHECK_SOFT
    | NO_CHECK_APPTYPE | NO_CHECK_ELF | NO_CHECK_TEXT | NO_CHECK_CDF | NO_CHECK_CSV
    | NO_CHECK_TOKENS | NO_CHECK_ENCODING | NO_CHECK_JSON;

/// Don't look inside ascii files.
pub const NO_CHECK_ASCII: c_int = NO_CHECK_TEXT;

/// Don't check ascii/fortran.
pub const NO_CHECK_FORTRAN: c_int = 0x000_0000;

/// Don't check ascii/troff.
pub const NO_CHECK_TROFF: c_int = 0x000_0000;

/// The flags that each switch off one built-in check of the engine.
pub open spec fn builtin_exclusions() -> Seq<c_int> {
    seq![
        NO_CHECK_COMPRESS,
        NO_CHECK_TAR,
        NO_CHECK_SOFT,
        NO_CHECK_APPTYPE,
        NO_CHECK_ELF,
        NO_CHECK_TEXT,
        NO_CHECK_CDF,
        NO_CHECK_CSV,
        NO_CHECK_TOKENS,
        NO_CHECK_ENCODING,
        NO_CHECK_JSON,
    ]
}

/// The bitwise OR of a sequence of bit patterns.
pub open spec fn union_of(s: Seq<c_int>) -> c_int
    decreases s.len(),
{
    if s.len() == 0 {
        0
    } else {
        union_of(s.drop_last()) | s.last()
    }
}

/// Appending a pattern ORs it into the union.
proof fn lemma_union_push(s: Seq<c_int>, x: c_int)
    ensures
        union_of(s.push(x)) == union_of(s) | x,
{
    assert(s.push(x).drop_last() =~= s);
}

/// `NO_CHECK_BUILTIN` is exactly the union of the exclusion bits: each of
/// them is set in it, and no other bit is.
pub proof fn lemma_no_check_builtin()
    ensures
        NO_CHECK_BUILTIN == union_of(builtin_exclusions()),
        forall|i: int|
            0 <= i < builtin_exclusions().len() ==> #[trigger] builtin_exclusions()[i]
                & NO_CHECK_BUILTIN == builtin_exclusions()[i],
        NO_CHECK_SOFT & NO_CHECK_BUILTIN == NO_CHECK_SOFT,
        NO_CHECK_ASCII & NO_CHECK_BUILTIN == NO_CHECK_ASCII,
{
    let s = builtin_exclusions();
    let p0 = Seq::<c_int>::empty();
    let p1 = p0.push(NO_CHECK_COMPRESS);
    lemma_union_push(p0, NO_CHECK_COMPRESS);
    let p2 = p1.push(NO_CHECK_TAR);
    lemma_union_push(p1, NO_CHECK_TAR);
    let p3 = p2.push(NO_CHECK_SOFT);
    lemma_union_push(p2, NO_CHECK_SOFT);
    let p4 = p3.push(NO_CHECK_APPTYPE);
    lemma_union_push(p3, NO_CHECK_APPTYPE);
    let p5 = p4.push(NO_CHECK_ELF);
    lemma_union_push(p4, NO_CHECK_ELF);
    let p6 = p5.push(NO_CHECK_TEXT);
    lemma_union_push(p5, NO_CHECK_TEXT);
    let p7 = p6.push(NO_CHECK_CDF);
    lemma_union_push(p6, NO_CHECK_CDF);
    let p8 = p7.push(NO_CHECK_CSV);
    lemma_union_push(p7, NO_CHECK_CSV);
    let p9 = p8.push(NO_CHECK_TOKENS);
    lemma_union_push(p8, NO_CHECK_TOKENS);
    let p10 = p9.push(NO_CHECK_ENCODING);
    lemma_union_push(p9, NO_CHECK_ENCODING);
    let p11 = p10.push(NO_CHECK_JSON);
    lemma_union_push(p10, NO_CHECK_JSON);
    assert(s =~= p11);
    assert((((((((((((0i32 | NO_CHECK_COMPRESS) | NO_CHECK_TAR) | NO_CHECK_SOFT) | NO_CHECK_APPTYPE) | NO_CHECK_ELF) | NO_CHECK_TEXT) | NO_CHECK_CDF) | NO_CHECK_CSV) | NO_CHECK_TOKENS) | NO_CHECK_ENCODING) | NO_CHECK_JSON) == 0x7ff000i32) by (bit_vector);
    assert(NO_CHECK_BUILTIN == 0x7ff000i32) by (bit_vector);
    assert forall|i: int| 0 <= i < s.len() implies #[trigger] s[i] & NO_CHECK_BUILTIN == s[i] by {
        let x = s[i];
        assert(x == 0x1000 || x == 0x2000 || x == 0x4000 || x == 0x8000 || x == 0x10000 || x == 0x20000 || x == 0x40000 || x == 0x80000 || x == 0x100000 || x == 0x200000 || x == 0x400000);
        assert((x == 0x1000 || x == 0x2000 || x == 0x4000 || x == 0x8000 || x == 0x10000 || x == 0x20000 || x == 0x40000 || x == 0x80000 || x == 0x100000 || x == 0x200000 || x == 0x400000) ==> x & 0x7ff000 == x) by (bit_vector);
    }
    assert(0x4000i32 & 0x7ff000i32 == 0x4000i32) by (bit_vector);
    assert(0x20000i32 & 0x7ff000i32 == 0x20000i32) by (bit_vector);
}

/// Bitmask flags that specify how a `Magic` handle should behave.
///
/// Every bit pattern is a valid value: combinations that the engine cannot
/// honour are reported by the engine itself when a database is loaded or a
/// query is made.
#[derive(Clone, Copy, PartialEq, Eq, Debug, Hash, Structural)]
pub struct Flags {
    bits: c_int,
}

impl View for Flags {
    type V = c_int;

    closed spec fn view(&self) -> c_int {
        self.bits
    }
}

impl Flags {
    /// The flags holding [`NONE`] alone.
    pub fn none() -> (r: Flags)
        ensures
            r@ == NONE,
    {
        Flags { bits: NONE }
    }

    /// The flags holding [`DEBUG`] alone.
    pub fn debug() -> (r: Flags)
        ensures
            r@ == DEBUG,
    {
        Flags { bits: DEBUG }
    }

    /// The flags holding [`SYMLINK`] alone.
    pub fn symlink() -> (r: Flags)
        ensures
            r@ == SYMLINK,
    {
        Flags { bits: SYMLINK }
    }

    /// The flags holding [`COMPRESS`] alone.
    pub fn compress() -> (r: Flags)
        ensures
            r@ == COMPRESS,
    {
        Flags { bits: COMPRESS }
    }

    /// The flags holding [`DEVICES`] alone.
    pub fn devices() -> (r: Flags)
        ensures
            r@ == DEVICES,
    {
        Flags { bits: DEVICES }
    }

    /// The flags holding [`MIME_TYPE`] alone.
    pub fn mime_type() -> (r: Flags)
        ensures
            r@ == MIME_TYPE,
    {
        Flags { bits: MIME_TYPE }
    }

    /// The flags holding [`CONTINUE`] alone.
    pub fn continue_matching() -> (r: Flags)
        ensures
            r@ == CONTINUE,
    {
        Flags { bits: CONTINUE }
    }

    /// The flags holding [`CHECK`] alone.
    pub fn check() -> (r: Flags)
        ensures
            r@ == CHECK,
    {
        Flags { bits: CHECK }
    }

    /// The flags holding [`PRESERVE_ATIME`] alone.
    pub fn preserve_atime() -> (r: Flags)
        ensures
            r@ == PRESERVE_ATIME,
    {
        Flags { bits: PRESERVE_ATIME }
    }

    /// The flags holding [`RAW`] alone.
    pub fn raw() -> (r: Flags)
        ensures
            r@ == RAW,
    {
        Flags { bits: RAW }
    }

    /// The flags holding [`ERROR`] alone.
    pub fn error() -> (r: Flags)
        ensures
            r@ == ERROR,
    {
        Flags { bits: ERROR }
    }

    /// The flags holding [`MIME_ENCODING`] alone.
    pub fn mime_encoding() -> (r: Flags)
        ensures
            r@ == MIME_ENCODING,
    {
        Flags { bits: MIME_ENCODING }
    }

    /// The flags holding [`MIME`] alone.
    pub fn mime() -> (r: Flags)
        ensures
            r@ == MIME,
    {
        Flags { bits: MIME }
    }

    /// The flags holding [`APPLE`] alone.
    pub fn apple() -> (r: Flags)
        ensures
            r@ == APPLE,
    {
        Flags { bits: APPLE }
    }

    /// The flags holding [`EXTENSION`] alone.
    pub fn extension() -> (r: Flags)
        ensures
            r@ == EXTENSION,
    {
        Flags { bits: EXTENSION }
    }

    /// The flags holding [`COMPRESS_TRANSP`] alone.
    pub fn compress_transp() -> (r: Flags)
        ensures
            r@ == COMPRESS_TRANSP,
    {
        Flags { bits: COMPRESS_TRANSP }
    }

    /// The flags holding [`MAGIC_NODESC`] alone.
    pub fn magic_nodesc() -> (r: Flags)
        ensures
            r@ == MAGIC_NODESC,
    {
        Flags { bits: MAGIC_NODESC }
    }

    /// The flags holding [`NO_CHECK_COMPRESS`] alone.
    pub fn no_check_compress() -> (r: Flags)
        ensures
            r@ == NO_CHECK_COMPRESS,
    {
        Flags { bits: NO_CHECK_COMPRESS }
    }

    /// The flags holding [`NO_CHECK_TAR`] alone.
    pub fn no_check_tar() -> (r: Flags)
        ensures
            r@ == NO_CHECK_TAR,
    {
        Flags { bits: NO_CHECK_TAR }
    }

    /// The flags holding [`NO_CHECK_SOFT`] alone.
    pub fn no_check_soft() -> (r: Flags)
        ensures
            r@ == NO_CHECK_SOFT,
    {
        Flags { bits: NO_CHECK_SOFT }
    }

    /// The flags holding [`NO_CHECK_APPTYPE`] alone.
    pub fn no_check_apptype() -> (r: Flags)
        ensures
            r@ == NO_CHECK_APPTYPE,
    {
        Flags { bits: NO_CHECK_APPTYPE }
    }

    /// The flags holding [`NO_CHECK_ELF`] alone.
    pub fn no_check_elf() -> (r: Flags)
        ensures
            r@ == NO_CHECK_ELF,
    {
        Flags { bits: NO_CHECK_ELF }
    }

    /// The flags holding [`NO_CHECK_TEXT`] alone.
    pub fn no_check_text() -> (r: Flags)
        ensures
            r@ == NO_CHECK_TEXT,
    {
        Flags { bits: NO_CHECK_TEXT }
    }

    /// The flags holding [`NO_CHECK_CDF`] alone.
    pub fn no_check_cdf() -> (r: Flags)
        ensures
            r@ == NO_CHECK_CDF,
    {
        Flags { bits: NO_CHECK_CDF }
    }

    /// The flags holding [`NO_CHECK_CSV`] alone.
    pub fn no_check_csv() -> (r: Flags)
        ensures
            r@ == NO_CHECK_CSV,
    {
        Flags { bits: NO_CHECK_CSV }
    }

    /// The flags holding [`NO_CHECK_TOKENS`] alone.
    pub fn no_check_tokens() -> (r: Flags)
        ensures
            r@ == NO_CHECK_TOKENS,
    {
        Flags { bits: NO_CHECK_TOKENS }
    }

    /// The flags holding [`NO_CHECK_ENCODING`] alone.
    pub fn no_check_encoding() -> (r: Flags)
        ensures
            r@ == NO_CHECK_ENCODING,
    {
        Flags { bits: NO_CHECK_ENCODING }
    }

    /// The flags holding [`NO_CHECK_JSON`] alone.
    pub fn no_check_json() -> (r: Flags)
        ensures
            r@ == NO_CHECK_JSON,
    {
        Flags { bits: NO_CHECK_JSON }
    }

    /// The flags holding [`NO_CHECK_BUILTIN`] alone.
    pub fn no_check_builtin() -> (r: Flags)
        ensures
            r@ == NO_CHECK_BUILTIN,
    {
        Flags { bits: NO_CHECK_BUILTIN }
    }

    /// The flags holding [`NO_CHECK_ASCII`] alone.
    pub fn no_check_ascii() -> (r: Flags)
        ensures
            r@ == NO_CHECK_ASCII,
    {
        Flags { bits: NO_CHECK_ASCII }
    }

    /// The flags holding [`NO_CHECK_FORTRAN`] alone.
    pub fn no_check_fortran() -> (r: Flags)
        ensures
            r@ == NO_CHECK_FORTRAN,
    {
        Flags { bits: NO_CHECK_FORTRAN }
    }

    /// The flags holding [`NO_CHECK_TROFF`] alone.
    pub fn no_check_troff() -> (r: Flags)
        ensures
            r@ == NO_CHECK_TROFF,
    {
        Flags { bits: NO_CHECK_TROFF }
    }

    /// The raw bit pattern handed to the engine.
    pub fn bits(&self) -> (r: c_int)
        ensures
            r == self@,
    {
        self.bits
    }

    /// The flags with exactly the given bits set.
    pub fn from_bits_retain(bits: c_int) -> (r: Flags)
        ensures
            r@ == bits,
    {
        Flags { bits }
    }

    /// The flags with no bit set.
    pub fn empty() -> (r: Flags)
        ensures
            r@ == 0,
    {
        Flags { bits: NONE }
    }

    /// Whether no bit is set.
    pub fn is_empty(&self) -> (r: bool)
        ensures
            r == (self@ == 0),
    {
        self.bits == 0
    }

    /// Whether every bit of `other` is set in `self`.
    pub fn contains(&self, other: Flags) -> (r: bool)
        ensures
            r == (self@ & other@ == other@),
    {
        self.bits & other.bits == other.bits
    }

    /// The bits set in `self`, in `other`, or in both.
    pub fn union(self, other: Flags) -> (r: Flags)
        ensures
            r@ == self@ | other@,
    {
        Flags { bits: self.bits | other.bits }
    }

    /// The bits set in both `self` and `other`.
    pub fn intersection(self, other: Flags) -> (r: Flags)
        ensures
            r@ == self@ & other@,
    {
        Flags { bits: self.bits & other.bits }
    }

    /// Sets every bit of `other` in `self`.
    pub fn insert(&mut self, other: Flags)
        ensures
            final(self)@ == old(self)@ | other@,
    {
        self.bits = self.bits | other.bits;
    }

    /// Clears every bit of `other` in `self`.
    pub fn remove(&mut self, other: Flags)
        ensures
            final(self)@ == old(self)@ & !other@,
    {
        self.bits = self.bits & !other.bits;
    }
}

impl core::ops::BitOr for Flags {
    type Output = Flags;

    fn bitor(self, other: Flags) -> (r: Flags)
        ensures
            r@ == self@ | other@,
    {
        self.union(other)
    }
}

impl vstd::std_specs::ops::BitOrSpecImpl for Flags {
    open spec fn obeys_bitor_spec() -> bool {
        true
    }

    open spec fn bitor_req(self, rhs: Flags) -> bool {
        true
    }

    closed spec fn bitor_spec(self, rhs: Flags) -> Flags {
        Flags { bits: self.bits | rhs.bits }
    }
}

impl Default for Flags {
    /// No special handling: every bit clear.
    fn default() -> (r: Flags)
        ensures
            r@ == 0,
    {
        Flags { bits: NONE }
    }
}

} // verus!
