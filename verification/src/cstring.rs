//! C strings: what goes to libmpv as a NUL-terminated `char*`, and how what
//! comes back is read.

use vstd::prelude::*;
use vstd::slice::slice_subrange;
use vstd::slice::slice_to_vec;
use vstd::utf8::*;

use crate::error::{Error, Result};

verus! {

/// The characters that [`String::from_utf8_lossy`] gives for `bytes`.
pub uninterp spec fn utf8_lossy(bytes: Seq<u8>) -> Seq<char>;

/// The text that `bytes` are read as: the characters they encode if they are
/// valid UTF-8, else what the lossy conversion makes of them.
pub open spec fn lossy_text(bytes: Seq<u8>) -> Seq<char> {
    if valid_utf8(bytes) {
        decode_utf8(bytes)
    } else {
        utf8_lossy(bytes)
    }
}

/// Calls [`String::from_utf8_lossy`]. What is valid UTF-8 comes back
/// unchanged, as its documentation says; what it gives for ill-formed input
/// takes long to say and has the name [`utf8_lossy`] here.
#[verifier::external_body]
fn from_utf8_lossy(bytes: &[u8]) -> (s: String)
    ensures
        s@ == (if valid_utf8(bytes@) {
            decode_utf8(bytes@)
        } else {
            utf8_lossy(bytes@)
        }),
{
    String::from_utf8_lossy(bytes).into_owned()
}

/// Calls [`core::str::from_utf8`], which succeeds exactly on valid UTF-8 and
/// then gives the characters that the bytes encode.
#[verifier::external_body]
fn from_utf8(bytes: &[u8]) -> (s: Option<&str>)
    ensures
        s is Some <==> valid_utf8(bytes@),
        s matches Some(s) ==> s@ == decode_utf8(bytes@),
{
    core::str::from_utf8(bytes).ok()
}

/// An owned C string: bytes without a NUL among them, followed by one.
#[derive(Debug, PartialEq, Eq)]
pub struct CString {
    bytes: Vec<u8>,
}

impl View for CString {
    type V = Seq<u8>;

    /// The bytes before the terminating NUL.
    closed spec fn view(&self) -> Seq<u8> {
        self.bytes@.drop_last()
    }
}

impl CString {
    #[verifier::type_invariant]
    closed spec fn terminated(self) -> bool {
        &&& self.bytes@.len() > 0
        &&& self.bytes@.last() == 0
        &&& forall|i: int| 0 <= i < self.bytes@.len() - 1 ==> self.bytes@[i] != 0
    }

    /// Append the terminating NUL to `bytes`; fails if they hold one already.
    pub fn new(bytes: Vec<u8>) -> (r: Result<CString>)
        ensures
            r is Err <==> bytes@.contains(0u8),
            r matches Err(e) ==> e == Error::InteriorNul,
            r matches Ok(c) ==> c@ == bytes@,
    {
        for i in 0..bytes.len()
            invariant
                forall|j: int| 0 <= j < i ==> bytes@[j] != 0,
        {
            if bytes[i] == 0 {
                return Err(Error::InteriorNul);
            }
        }
        let mut terminated = bytes;
        terminated.push(0);
        assert(terminated@.drop_last() == bytes@);
        Ok(CString { bytes: terminated })
    }

    /// The bytes with the terminating NUL, as libmpv reads them.
    pub fn as_bytes_with_nul(&self) -> (bytes: &[u8])
        ensures
            bytes@ == self@.push(0u8),
            !self@.contains(0u8),
    {
        proof {
            use_type_invariant(self);
            assert(self.bytes@ == self@.push(0u8));
        }
        self.bytes.as_slice()
    }

    /// The bytes before the terminating NUL.
    pub fn to_bytes(&self) -> (bytes: &[u8])
        ensures
            bytes@ == self@,
            !self@.contains(0u8),
    {
        proof {
            use_type_invariant(self);
        }
        slice_subrange(self.bytes.as_slice(), 0, self.bytes.len() - 1)
    }

    /// The string as text; bytes that are not UTF-8 are replaced.
    pub fn to_string_lossy(&self) -> (s: String)
        ensures
            s@ == lossy_text(self@),
    {
        from_utf8_lossy(self.to_bytes())
    }

    /// The string as text if it is UTF-8, else the empty string.
    pub fn to_str_or_empty(&self) -> (s: &str)
        ensures
            s@ == (if valid_utf8(self@) {
                decode_utf8(self@)
            } else {
                Seq::<char>::empty()
            }),
    {
        match from_utf8(self.to_bytes()) {
            Some(s) => s,
            None => {
                proof {
                    reveal_strlit("");
                }
                ""
            },
        }
    }
}

/// Whether a text cannot be passed as a C string.
pub open spec fn has_nul(s: Seq<char>) -> bool {
    s.contains('\0')
}

/// Encode `s` as a C string; fails if it holds a NUL character.
pub fn cstr(s: &str) -> (r: Result<CString>)
    ensures
        r is Err <==> has_nul(s@),
        r matches Err(e) ==> e == Error::InteriorNul,
        r matches Ok(c) ==> c@ == encode_utf8(s@),
{
    proof {
        lemma_nul_byte_is_nul_char(s@);
    }
    CString::new(slice_to_vec(s.as_bytes()))
}

/// The C string of `name`, or none for the null pointer.
pub fn cstr_opt(name: Option<&str>) -> (r: Result<Option<CString>>)
    ensures
        r is Err <==> (name matches Some(s) && has_nul(s@)),
        r matches Err(e) ==> e == Error::InteriorNul,
        r matches Ok(c) ==> (c is Some <==> name is Some),
        r matches Ok(Some(c)) ==> c@ == encode_utf8(name->0@),
{
    match name {
        Some(s) => match cstr(s) {
            Ok(c) => Ok(Some(c)),
            Err(e) => Err(e),
        },
        None => Ok(None),
    }
}

/// A null-terminated argument vector of C strings.
pub struct CArgs {
    /// The strings that the vector points to.
    pub owned: Vec<CString>,
    /// The vector: indices into `owned`, then the null pointer.
    pub ptrs: Vec<Option<usize>>,
}

impl CArgs {
    /// Whether this is the argument vector of `args`: one C string for each,
    /// a pointer to each in order, and a null pointer after the last only.
    pub open spec fn holds(self, args: Seq<&str>) -> bool {
        &&& self.owned@.len() == args.len()
        &&& forall|i: int|
            0 <= i < args.len() ==> (#[trigger] self.owned@[i])@ == encode_utf8(args[i]@)
        &&& self.ptrs@.len() == args.len() + 1
        &&& forall|i: int| 0 <= i < args.len() ==> #[trigger] self.ptrs@[i] == Some(i as usize)
        &&& self.ptrs@.last() is None
    }
}

/// Whether some argument cannot be passed as a C string.
pub open spec fn any_has_nul(args: Seq<&str>) -> bool {
    exists|i: int| 0 <= i < args.len() && has_nul(#[trigger] args[i]@)
}

/// Build a null-terminated argv of C strings from `args`.
pub fn cstr_args(args: &[&str]) -> (r: Result<CArgs>)
    ensures
        r is Err <==> any_has_nul(args@),
        r matches Err(e) ==> e == Error::InteriorNul,
        r matches Ok(a) ==> a.holds(args@),
{
    let mut owned: Vec<CString> = Vec::new();
    let mut ptrs: Vec<Option<usize>> = Vec::new();
    for i in 0..args.len()
        invariant
            owned@.len() == i,
            ptrs@.len() == i,
            forall|j: int| 0 <= j < i ==> !has_nul(#[trigger] args@[j]@),
            forall|j: int| 0 <= j < i ==> (#[trigger] owned@[j])@ == encode_utf8(args@[j]@),
            forall|j: int| 0 <= j < i ==> #[trigger] ptrs@[j] == Some(j as usize),
    {
        match cstr(args[i]) {
            Ok(c) => {
                owned.push(c);
                ptrs.push(Some(i));
            },
            Err(e) => {
                assert(has_nul(args@[i as int]@));
                return Err(e);
            },
        }
    }
    ptrs.push(None);
    Ok(CArgs { owned, ptrs })
}

/// The encoding of a character holds the byte 0 only if the character is NUL,
/// whose encoding is that byte.
proof fn lemma_scalar_nul(scalar: u32)
    requires
        is_scalar(scalar),
    ensures
        scalar == 0 ==> encode_scalar(scalar) == seq![0u8],
        scalar != 0 ==> !encode_scalar(scalar).contains(0u8),
{
    if has_width_1_encoding(scalar) {
        assert(scalar <= 0x7F ==> ((scalar & 0x7F) as u8 == 0 <==> scalar == 0)) by (bit_vector);
    } else {
        let top2 = (scalar >> 6) & 0x1F;
        let top3 = (scalar >> 12) & 0x0F;
        let top4 = (scalar >> 18) & 0x7;
        let last = scalar & 0x3F;
        let second = (scalar >> 6) & 0x3F;
        let third = (scalar >> 12) & 0x3F;
        assert(0xC0u8 | (top2 as u8) != 0) by (bit_vector);
        assert(0xE0u8 | (top3 as u8) != 0) by (bit_vector);
        assert(0xF0u8 | (top4 as u8) != 0) by (bit_vector);
        assert(0x80u8 | (last as u8) != 0) by (bit_vector);
        assert(0x80u8 | (second as u8) != 0) by (bit_vector);
        assert(0x80u8 | (third as u8) != 0) by (bit_vector);
    }
}

/// The UTF-8 encoding of a text holds the byte 0 exactly if the text holds the
/// NUL character.
proof fn lemma_nul_byte_is_nul_char(s: Seq<char>)
    ensures
        encode_utf8(s).contains(0u8) <==> has_nul(s),
    decreases s.len(),
{
    if s.len() > 0 {
        let first = encode_scalar(s[0] as u32);
        let rest = encode_utf8(s.drop_first());
        lemma_nul_byte_is_nul_char(s.drop_first());
        char_is_scalar(s[0]);
        char_u32_cast(s[0], s[0] as u32);
        lemma_scalar_nul(s[0] as u32);
        let bytes = encode_utf8(s);
        assert(bytes == first + rest);
        if bytes.contains(0u8) {
            let i = bytes.index_of(0u8);
            if i < first.len() {
                assert(first[i] == 0);
                assert(s[0] == '\0');
            } else {
                assert(rest[i - first.len()] == 0);
                let j = s.drop_first().index_of('\0');
                assert(s[j + 1] == '\0');
            }
        }
        if has_nul(s) {
            let j = s.index_of('\0');
            if j == 0 {
                assert(bytes[0] == 0);
            } else {
                assert(s.drop_first()[j - 1] == '\0');
                let i = rest.index_of(0u8);
                assert(bytes[first.len() + i] == 0);
            }
        }
    }
}

/// A text that can be passed as a C string reads back as itself: its bytes
/// hold no NUL, and the text they are read as is the same text.
pub proof fn law_c_string_round_trip(s: Seq<char>)
    requires
        !has_nul(s),
    ensures
        !encode_utf8(s).contains(0u8),
        lossy_text(encode_utf8(s)) == s,
{
    lemma_nul_byte_is_nul_char(s);
    encode_utf8_valid_utf8(s);
    encode_utf8_decode_utf8(s);
}

/// A C string is the bytes it was made from, followed by one NUL, with no NUL
/// before it; only bytes with a NUL among them make none.
pub proof fn law_c_string_is_its_bytes_and_nul(
    bytes: Vec<u8>,
    r: Result<CString>,
    with_nul: &[u8],
    without: &[u8],
)
    requires
        call_ensures(CString::new, (bytes,), r),
    ensures
        r is Ok <==> forall|i: int| 0 <= i < bytes@.len() ==> bytes@[i] != 0,
        r matches Err(e) ==> e == Error::InteriorNul,
        r matches Ok(c) ==> {
            &&& c@ == bytes@
            &&& call_ensures(CString::as_bytes_with_nul, (&c,), with_nul) ==> with_nul@.len()
                == bytes@.len() + 1 && with_nul@.last() == 0 && with_nul@.drop_last() == bytes@
            &&& call_ensures(CString::to_bytes, (&c,), without) ==> without@ == bytes@
        },
{
    if let Ok(c) = r {
        assert(c@.push(0u8).drop_last() =~= bytes@);
    }
}

/// The text of a C string is the one that its bytes encode; bytes that encode
/// none are read by the lossy conversion, or as the empty text where no
/// replacement is wanted.
pub proof fn law_text_of_a_c_string(c: &CString, lossy: String, strict: &str)
    ensures
        call_ensures(CString::to_string_lossy, (c,), lossy) ==> {
            &&& lossy@ == lossy_text(c@)
            &&& valid_utf8(c@) ==> encode_utf8(lossy@) == c@
            &&& !valid_utf8(c@) ==> lossy@ == utf8_lossy(c@)
        },
        call_ensures(CString::to_str_or_empty, (c,), strict) ==> {
            &&& valid_utf8(c@) ==> encode_utf8(strict@) == c@
            &&& !valid_utf8(c@) ==> strict@.len() == 0
        },
{
    if valid_utf8(c@) {
        decode_utf8_encode_utf8(c@);
    }
}

/// The C string of a text holds the bytes of that text and reads back as it; a
/// text has none exactly if one of its characters is NUL.
pub proof fn law_text_becomes_its_bytes(s: &str, r: Result<CString>, lossy: String, strict: &str)
    requires
        call_ensures(cstr, (s,), r),
    ensures
        r is Ok <==> forall|i: int| 0 <= i < s@.len() ==> s@[i] != '\0',
        r is Err <==> encode_utf8(s@).contains(0u8),
        r matches Err(e) ==> e == Error::InteriorNul,
        r matches Ok(c) ==> {
            &&& c@ == encode_utf8(s@)
            &&& call_ensures(CString::to_string_lossy, (&c,), lossy) ==> lossy@ == s@
            &&& call_ensures(CString::to_str_or_empty, (&c,), strict) ==> strict@ == s@
        },
{
    lemma_nul_byte_is_nul_char(s@);
    encode_utf8_valid_utf8(s@);
    encode_utf8_decode_utf8(s@);
}

/// A text that is optional becomes a C string as it would on its own, and none
/// stays none.
pub proof fn law_optional_text(name: Option<&str>, r: Result<Option<CString>>)
    requires
        call_ensures(cstr_opt, (name,), r),
    ensures
        name is None ==> (r matches Ok(c) && c is None),
        name matches Some(s) ==> {
            &&& r is Err <==> exists|i: int| 0 <= i < s@.len() && s@[i] == '\0'
            &&& r matches Ok(c) ==> (c matches Some(c) && c@ == encode_utf8(s@))
        },
        r matches Err(e) ==> e == Error::InteriorNul,
{
}

/// An argument vector has one pointer for each argument, in their order, and a
/// null pointer behind the last: following pointer `i` gives the bytes of
/// argument `i`. There is none exactly if some argument holds a NUL.
pub proof fn law_argument_vector_is_in_order(args: &[&str], r: Result<CArgs>)
    requires
        call_ensures(cstr_args, (args,), r),
    ensures
        r is Err <==> exists|i: int, j: int|
            0 <= i < args@.len() && 0 <= j < args@[i]@.len() && args@[i]@[j] == '\0',
        r matches Err(e) ==> e == Error::InteriorNul,
        r matches Ok(a) ==> a.holds(args@),
{
    if r is Err {
        let i = choose|i: int| 0 <= i < args@.len() && has_nul(#[trigger] args@[i]@);
        let j = args@[i]@.index_of('\0');
        assert(args@[i]@[j] == '\0');
    }
}

/// What it is to be the argument vector of `args`: following pointer `i` gives
/// the bytes of argument `i`, a null pointer comes where the arguments end and
/// nowhere before, and nothing comes behind it.
pub proof fn law_argument_vector_points_to_arguments(a: CArgs, args: Seq<&str>)
    requires
        a.holds(args),
        args.len() <= usize::MAX,
    ensures
        a.ptrs@.len() == args.len() + 1,
        a.ptrs@[args.len() as int] is None,
        forall|i: int|
            0 <= i < args.len() ==> (#[trigger] a.ptrs@[i] matches Some(p) && p < a.owned@.len()
                && a.owned@[p as int]@ == encode_utf8(args[i]@)),
        a.owned@.len() == args.len(),
{
    assert forall|i: int| 0 <= i < args.len() implies (#[trigger] a.ptrs@[i] matches Some(p) && p
        < a.owned@.len() && a.owned@[p as int]@ == encode_utf8(args[i]@)) by {
        assert(a.owned@[i]@ == encode_utf8(args[i]@));
    }
}

} // verus!
