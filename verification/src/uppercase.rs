//! Upper-casing of ASCII text into a buffer of fixed capacity.

use vstd::prelude::*;
use vstd::string::StringSliceAdditionalSpecFns;

verus! {

/// The upper-case form of one byte: the letters `a` to `z` become `A` to
/// `Z`, every other byte stays.
pub open spec fn upper(b: u8) -> u8 {
    if 0x61 <= b <= 0x7a {
        (b - 0x20) as u8
    } else {
        b
    }
}

/// The upper-case form of a text, byte by byte.
pub open spec fn upper_all(s: Seq<u8>) -> Seq<u8> {
    s.map_values(|b: u8| upper(b))
}

/// Upper-cased text in a buffer that holds up to `AVAILABLE_LEN` bytes.
#[derive(Debug, Clone, Copy)]
pub struct ConstUppercaseData<const AVAILABLE_LEN: usize> {
    pub arr: [u8; AVAILABLE_LEN],
    pub len: usize,
}

impl<const AVAILABLE_LEN: usize> View for ConstUppercaseData<AVAILABLE_LEN> {
    type V = Seq<u8>;

    /// The bytes of the text: the used part of the buffer.
    open spec fn view(&self) -> Seq<u8> {
        self.arr@.take(self.len as int)
    }
}

impl<const AVAILABLE_LEN: usize> ConstUppercaseData<AVAILABLE_LEN> {
    /// The text is no longer than the buffer.
    pub open spec fn wf(&self) -> bool {
        self.len <= AVAILABLE_LEN
    }

    /// An empty text in a buffer of zeros.
    pub fn zeroed() -> (r: Self)
        ensures
            r.wf(),
            r@.len() == 0,
            r.len == 0,
            forall|i: int| 0 <= i < AVAILABLE_LEN ==> r.arr@[i] == 0,
    {
        ConstUppercaseData { arr: [0u8; AVAILABLE_LEN], len: 0 }
    }

    /// The length of the text in bytes.
    pub fn len(&self) -> (r: usize)
        requires
            self.wf(),
        ensures
            r == self@.len(),
    {
        self.len
    }

    /// Says whether the text is empty.
    pub fn is_empty(&self) -> (r: bool)
        requires
            self.wf(),
        ensures
            r == (self@.len() == 0),
    {
        self.len == 0
    }

    /// The byte at place `i` of the text.
    pub fn byte_at(&self, i: usize) -> (r: u8)
        requires
            self.wf(),
            i < self@.len(),
        ensures
            r == self@[i as int],
    {
        self.arr[i]
    }

    /// The bytes of the text.
    pub fn to_bytes(&self) -> (r: Vec<u8>)
        requires
            self.wf(),
        ensures
            r@ == self@,
    {
        let mut out: Vec<u8> = Vec::new();
        let mut i: usize = 0;
        while i < self.len
            invariant
                self.wf(),
                0 <= i <= self.len,
                out@ == self.arr@.take(i as int),
            decreases self.len - i,
        {
            out.push(self.arr[i]);
            assert(self.arr@.take(i + 1) == self.arr@.take(i as int).push(self.arr@[i as int]));
            i += 1;
        }
        out
    }
}

/// The upper-case form of one byte.
pub fn to_upper(b: u8) -> (r: u8)
    ensures
        r == upper(b),
{
    if 0x61 <= b && b <= 0x7a {
        b - 0x20
    } else {
        b
    }
}

/// The upper-case form of `instr`, in a buffer of `AVAILABLE_LEN` bytes. The
/// text has to fit the buffer.
pub fn const_ascii_uppercase<const AVAILABLE_LEN: usize>(instr: &str) -> (r: ConstUppercaseData<
    AVAILABLE_LEN,
>)
    requires
        instr.spec_bytes().len() <= AVAILABLE_LEN,
    ensures
        r.wf(),
        r@ == upper_all(instr.spec_bytes()),
        forall|i: int| instr.spec_bytes().len() <= i < AVAILABLE_LEN ==> r.arr@[i] == 0,
{
    let inarr = instr.as_bytes();
    let len = inarr.len();
    let mut out = ConstUppercaseData::<AVAILABLE_LEN>::zeroed();
    let mut i: usize = 0;
    while i < len
        invariant
            0 <= i <= len,
            len == inarr@.len(),
            len <= AVAILABLE_LEN,
            inarr@ == instr.spec_bytes(),
            out.len == 0,
            forall|j: int| 0 <= j < i ==> out.arr@[j] == upper(inarr@[j]),
            forall|j: int| i <= j < AVAILABLE_LEN ==> out.arr@[j] == 0,
        decreases len - i,
    {
        out.arr[i] = to_upper(inarr[i]);
        i += 1;
    }
    out.len = len;
    assert(out@ =~= upper_all(instr.spec_bytes()));
    out
}

/// Upper-casing keeps the length, changes nothing but the lower-case
/// letters, and done twice gives what it gives done once.
pub proof fn lemma_upper_all(s: Seq<u8>)
    ensures
        upper_all(s).len() == s.len(),
        forall|i: int|
            0 <= i < s.len() ==> #[trigger] upper_all(s)[i] == (if 0x61 <= s[i] <= 0x7a {
                (s[i] - 0x20) as u8
            } else {
                s[i]
            }),
        forall|i: int| 0 <= i < s.len() ==> !(0x61 <= #[trigger] upper_all(s)[i] <= 0x7a),
        upper_all(upper_all(s)) == upper_all(s),
{
    assert(upper_all(upper_all(s)) =~= upper_all(s));
}

/// Upper-casing changes no byte outside ASCII, and maps ASCII to ASCII.
pub proof fn lemma_upper_keeps_non_ascii(b: u8)
    ensures
        b >= 0x80 ==> upper(b) == b,
        b < 0x80 ==> upper(b) < 0x80,
{
}

} // verus!
