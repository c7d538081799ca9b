//! Marshalling between host strings and terminated native strings, and between
//! host option lists and native option records.
//!
//! A string that the native side hands out arrives here as the bytes in front
//! of its terminator, or as `None` where the pointer was null. A string that
//! goes to the native side leaves as a buffer that ends in a zero byte; the
//! buffer is owned by the value that holds it, so it lives as long as the
//! caller keeps that value.

use vstd::prelude::*;
use vstd::string::StringSliceAdditionalSpecFns;
use vstd::utf8::{valid_utf8, decode_utf8, encode_utf8, encode_utf8_decode_utf8, encode_utf8_valid_utf8};
use crate::error::{CpdbError, ErrorModel};

verus! {

/// No byte of `bytes` is zero.
pub open spec fn nul_free(bytes: Seq<u8>) -> bool {
    forall|i: int| 0 <= i < bytes.len() ==> bytes[i] != 0
}

/// `at` is the position of the first zero byte of `bytes`.
pub open spec fn is_first_nul(bytes: Seq<u8>, at: int) -> bool {
    &&& 0 <= at < bytes.len()
    &&& bytes[at] == 0
    &&& forall|i: int| 0 <= i < at ==> bytes[i] != 0
}

/// The length of the terminated string at the start of `bytes`: the position
/// of the first zero byte, or the whole length where there is none.
pub open spec fn c_len(bytes: Seq<u8>) -> nat {
    if nul_free(bytes) {
        bytes.len()
    } else {
        choose|at: nat| is_first_nul(bytes, at as int)
    }
}

/// A buffer that is not free of zero bytes has a first one, and `c_len` is
/// its position.
pub proof fn lemma_c_len(bytes: Seq<u8>)
    ensures
        c_len(bytes) <= bytes.len(),
        nul_free(bytes.take(c_len(bytes) as int)),
        !nul_free(bytes) ==> is_first_nul(bytes, c_len(bytes) as int),
{
    if !nul_free(bytes) {
        let some = choose|i: int| 0 <= i < bytes.len() && bytes[i] == 0;
        lemma_first_nul_exists(bytes, some);
    }
}

proof fn lemma_first_nul_exists(bytes: Seq<u8>, upto: int)
    requires
        0 <= upto < bytes.len(),
        bytes[upto] == 0,
    ensures
        exists|at: nat| is_first_nul(bytes, at as int),
    decreases upto,
{
    if forall|i: int| 0 <= i < upto ==> bytes[i] != 0 {
        assert(is_first_nul(bytes, upto as nat as int));
    } else {
        let earlier = choose|i: int| 0 <= i < upto && bytes[i] == 0;
        lemma_first_nul_exists(bytes, earlier);
    }
}

/// The first zero byte is unique: whoever finds one has found `c_len`.
pub proof fn lemma_first_nul_is_c_len(bytes: Seq<u8>, at: int)
    requires
        is_first_nul(bytes, at),
    ensures
        c_len(bytes) == at,
{
    lemma_c_len(bytes);
}

/// The bytes of a native string, as a mathematical value.
pub open spec fn bytes_view(ptr: Option<&[u8]>) -> Option<Seq<u8>> {
    match ptr {
        Some(bytes) => Some(bytes@),
        None => None,
    }
}

/// The first `n` bytes of `bytes` are valid UTF-8 and no longer prefix is.
pub open spec fn is_valid_up_to(bytes: Seq<u8>, n: int) -> bool {
    &&& 0 <= n <= bytes.len()
    &&& valid_utf8(bytes.take(n))
    &&& forall|m: int| n < m <= bytes.len() ==> !valid_utf8(#[trigger] bytes.take(m))
}

/// The length of the longest prefix of `bytes` that is valid UTF-8.
pub open spec fn valid_up_to(bytes: Seq<u8>) -> nat {
    choose|n: nat| is_valid_up_to(bytes, n as int)
}

/// The longest valid prefix is unique: whoever holds one holds
/// `valid_up_to`.
pub proof fn lemma_valid_up_to(bytes: Seq<u8>, n: int)
    requires
        is_valid_up_to(bytes, n),
    ensures
        valid_up_to(bytes) == n,
{
    assert(is_valid_up_to(bytes, n as nat as int));
    let chosen = valid_up_to(bytes) as int;
    assert(is_valid_up_to(bytes, chosen));
    if chosen < n {
        assert(!valid_utf8(bytes.take(n)));
    } else if n < chosen {
        assert(!valid_utf8(bytes.take(chosen)));
    }
}

/// The length of the invalid sequence that stops the decoding of `bytes`, as
/// `Utf8Error::error_len` reports it: none where the input ends in the middle
/// of a character.
pub uninterp spec fn utf8_error_len(bytes: Seq<u8>) -> Option<nat>;

/// A reported length as a mathematical value.
pub open spec fn len_view(len: Option<usize>) -> Option<nat> {
    match len {
        Some(n) => Some(n as nat),
        None => None,
    }
}

/// What a native string decodes to: a null pointer is an error of its own, a
/// byte sequence that is not UTF-8 is rejected with the place where it stops
/// being valid, and nothing is substituted.
pub open spec fn decoded(ptr: Option<Seq<u8>>) -> Result<Seq<char>, ErrorModel> {
    match ptr {
        None => Err(ErrorModel::NullPointer),
        Some(bytes) => if valid_utf8(bytes) {
            Ok(decode_utf8(bytes))
        } else {
            Err(ErrorModel::Utf8Error(valid_up_to(bytes), utf8_error_len(bytes)))
        },
    }
}

/// The terminated buffer for a host string: its UTF-8 bytes and a zero byte
/// behind them. A string that holds a zero byte itself has none, and the
/// error names the position of the first.
pub open spec fn terminated(s: Seq<char>) -> Result<Seq<u8>, ErrorModel> {
    let bytes = encode_utf8(s);
    if nul_free(bytes) {
        Ok(bytes.push(0u8))
    } else {
        Err(ErrorModel::NulError(c_len(bytes)))
    }
}

/// The failure of marshalling `s`, if it fails.
pub open spec fn unterminated(s: Seq<char>) -> Option<ErrorModel> {
    match terminated(s) {
        Ok(_) => None,
        Err(e) => Some(e),
    }
}

/// The earlier of two failures: `first` where there is one, else `second`.
pub open spec fn first_of(first: Option<ErrorModel>, second: Option<ErrorModel>) -> Option<
    ErrorModel,
> {
    if first is Some {
        first
    } else {
        second
    }
}

/// The mathematical value of a text result.
pub open spec fn text_view(r: Result<String, CpdbError>) -> Result<Seq<char>, ErrorModel> {
    match r {
        Ok(s) => Ok(s@),
        Err(e) => Err(e@),
    }
}

/// The mathematical value of a buffer result.
pub open spec fn buffer_view(r: Result<Vec<u8>, CpdbError>) -> Result<Seq<u8>, ErrorModel> {
    match r {
        Ok(b) => Ok(b@),
        Err(e) => Err(e@),
    }
}

/// `std::str::from_utf8`, with what `Utf8Error::valid_up_to` and
/// `Utf8Error::error_len` say of its error. Believed of std, not proved: that
/// the call succeeds exactly on valid UTF-8; that the slice then holds the
/// very bytes that were given; that the error names the length of the longest
/// valid prefix; and that its length of the invalid sequence is a function of
/// the bytes, which `utf8_error_len` names.
#[verifier::external_body]
fn str_from_utf8(bytes: &[u8]) -> (r: Result<&str, (usize, Option<usize>)>)
    ensures
        r is Ok <==> valid_utf8(bytes@),
        r matches Ok(s) ==> s.spec_bytes() == bytes@,
        r matches Err(at) ==> is_valid_up_to(bytes@, at.0 as int) && len_view(at.1)
            == utf8_error_len(bytes@),
{
    match std::str::from_utf8(bytes) {
        Ok(s) => Ok(s),
        Err(e) => Err((e.valid_up_to(), e.error_len())),
    }
}

/// Copies a native string into a host string.
pub fn cstr_to_string(ptr: Option<&[u8]>) -> (r: Result<String, CpdbError>)
    ensures
        text_view(r) == decoded(bytes_view(ptr)),
{
    match ptr {
        None => Err(CpdbError::NullPointer),
        Some(bytes) => match str_from_utf8(bytes) {
            Ok(s) => {
                proof {
                    encode_utf8_decode_utf8(s@);
                }
                Ok(s.to_owned())
            },
            Err((at, len)) => {
                proof {
                    lemma_valid_up_to(bytes@, at as int);
                }
                Err(CpdbError::Utf8Error(at, len))
            },
        },
    }
}

/// Builds the terminated buffer for a host string.
pub fn to_c_string(s: &str) -> (r: Result<Vec<u8>, CpdbError>)
    ensures
        buffer_view(r) == terminated(s@),
{
    let bytes = s.as_bytes();
    let mut out: Vec<u8> = Vec::new();
    let mut i: usize = 0;
    while i < bytes.len()
        invariant
            i <= bytes.len(),
            bytes@ == encode_utf8(s@),
            out@ == bytes@.take(i as int),
            forall|k: int| 0 <= k < i ==> bytes@[k] != 0,
        decreases bytes.len() - i,
    {
        if bytes[i] == 0 {
            proof {
                lemma_first_nul_is_c_len(bytes@, i as int);
            }
            return Err(CpdbError::NulError(i));
        }
        out.push(bytes[i]);
        assert(out@ =~= bytes@.take(i + 1));
        i += 1;
    }
    assert(bytes@.take(i as int) =~= bytes@);
    out.push(0);
    Ok(out)
}

/// One native option record, as plain values: each string a terminated
/// buffer, an absent group as `None`.
#[derive(Debug, Clone, PartialEq, Eq)]
pub struct NativeOption {
    pub option_name: Vec<u8>,
    pub default_value: Vec<u8>,
    pub group_name: Option<Vec<u8>>,
    pub num_supported: i32,
    pub supported_values: Vec<Vec<u8>>,
}

/// What the terminated string at the start of `buffer` decodes to.
pub open spec fn read_back(buffer: Seq<u8>) -> Result<Seq<char>, ErrorModel> {
    decoded(Some(buffer.take(c_len(buffer) as int)))
}

impl NativeOption {
    /// The record of an option that has a name and a value and nothing else.
    pub open spec fn is_plain(&self, name: Seq<u8>, value: Seq<u8>) -> bool {
        &&& self.option_name@ == name
        &&& self.default_value@ == value
        &&& self.group_name is None
        &&& self.num_supported == 0
        &&& self.supported_values@.len() == 0
    }

    /// The option's name, read back from its buffer.
    pub fn name(&self) -> (r: Result<String, CpdbError>)
        ensures
            text_view(r) == read_back(self.option_name@),
    {
        read_buffer(&self.option_name)
    }

    /// The option's value, read back from its buffer.
    pub fn value(&self) -> (r: Result<String, CpdbError>)
        ensures
            text_view(r) == read_back(self.default_value@),
    {
        read_buffer(&self.default_value)
    }
}

/// Decodes the terminated string at the start of `buffer`.
pub fn read_buffer(buffer: &Vec<u8>) -> (r: Result<String, CpdbError>)
    ensures
        text_view(r) == read_back(buffer@),
{
    let mut n: usize = 0;
    while n < buffer.len() && buffer[n] != 0
        invariant
            n <= buffer.len(),
            forall|k: int| 0 <= k < n ==> buffer@[k] != 0,
        decreases buffer.len() - n,
    {
        n += 1;
    }
    proof {
        if n < buffer.len() {
            lemma_first_nul_is_c_len(buffer@, n as int);
        }
    }
    let head = vstd::slice::slice_subrange(buffer.as_slice(), 0, n);
    assert(head@ =~= buffer@.take(n as int));
    cstr_to_string(Some(head))
}

/// The names and values of a host option list, as characters.
pub open spec fn pairs_view(options: Seq<(&str, &str)>) -> Seq<(Seq<char>, Seq<char>)> {
    Seq::new(options.len(), |i: int| (options[i].0@, options[i].1@))
}

/// The buffers for a host option list, pair by pair in the list's order. The
/// first string that cannot be terminated, going through names and values in
/// order, fails the whole list with its error.
pub open spec fn marshalled(options: Seq<(Seq<char>, Seq<char>)>) -> Result<
    Seq<(Seq<u8>, Seq<u8>)>,
    ErrorModel,
>
    decreases options.len(),
{
    if options.len() == 0 {
        Ok(Seq::empty())
    } else {
        match marshalled(options.drop_last()) {
            Err(e) => Err(e),
            Ok(front) => match terminated(options.last().0) {
                Err(e) => Err(e),
                Ok(name) => match terminated(options.last().1) {
                    Err(e) => Err(e),
                    Ok(value) => Ok(front.push((name, value))),
                },
            },
        }
    }
}

/// The native records `records` are exactly the plain options with the
/// buffers `pairs`.
pub open spec fn holds_pairs(records: Seq<NativeOption>, pairs: Seq<(Seq<u8>, Seq<u8>)>) -> bool {
    &&& records.len() == pairs.len()
    &&& forall|i: int|
        0 <= i < records.len() ==> (#[trigger] records[i]).is_plain(pairs[i].0, pairs[i].1)
}

/// Converts a host option list into native option records.
pub fn to_c_options(options: &[(&str, &str)]) -> (r: Result<Vec<NativeOption>, CpdbError>)
    ensures
        match (r, marshalled(pairs_view(options@))) {
            (Ok(records), Ok(pairs)) => holds_pairs(records@, pairs),
            (Err(e), Err(m)) => e@ == m,
            _ => false,
        },
{
    let mut c_options: Vec<NativeOption> = Vec::new();
    let mut i: usize = 0;
    let ghost all = pairs_view(options@);
    while i < options.len()
        invariant
            i <= options.len(),
            all == pairs_view(options@),
            marshalled(all.take(i as int)) is Ok,
            holds_pairs(c_options@, marshalled(all.take(i as int))->Ok_0),
        decreases options.len() - i,
    {
        let (key, value) = options[i];
        proof {
            assert(all.take(i + 1).drop_last() =~= all.take(i as int));
            assert(all.take(i + 1).last() == (key@, value@));
            if !(terminated(key@) is Ok && terminated(value@) is Ok) {
                lemma_marshalled_fails_later(all, i + 1);
                assert(all.take(all.len() as int) =~= all);
            }
        }
        let c_key = match to_c_string(key) {
            Ok(buffer) => buffer,
            Err(e) => {
                return Err(e);
            },
        };
        let c_val = match to_c_string(value) {
            Ok(buffer) => buffer,
            Err(e) => {
                return Err(e);
            },
        };
        c_options.push(
            NativeOption {
                option_name: c_key,
                default_value: c_val,
                group_name: None,
                num_supported: 0,
                supported_values: Vec::new(),
            },
        );
        i += 1;
    }
    assert(all.take(i as int) =~= all);
    Ok(c_options)
}

/// Once a prefix of an option list fails, every longer prefix fails with the
/// same error.
proof fn lemma_marshalled_fails_later(options: Seq<(Seq<char>, Seq<char>)>, n: int)
    requires
        0 <= n <= options.len(),
        marshalled(options.take(n)) is Err,
    ensures
        forall|m: int| n <= m <= options.len() ==> marshalled(#[trigger] options.take(m)) == marshalled(options.take(n)),
    decreases options.len() - n,
{
    if n < options.len() {
        assert(options.take(n + 1).drop_last() =~= options.take(n));
        lemma_marshalled_fails_later(options, n + 1);
    }
}

/// Gives the records, and with them their buffers, back to the host
/// allocator. Call it only after the native call that read them has returned.
pub fn free_c_options(_options: Vec<NativeOption>) {
}

/// A host string that holds no zero byte comes back unchanged from the
/// buffer it was marshalled into.
pub proof fn lemma_marshal_round_trip(s: Seq<char>)
    requires
        nul_free(encode_utf8(s)),
    ensures
        terminated(s) is Ok,
        read_back(terminated(s)->Ok_0) == Ok::<Seq<char>, ErrorModel>(s),
{
    let bytes = encode_utf8(s);
    let buffer = bytes.push(0u8);
    assert(is_first_nul(buffer, bytes.len() as int));
    lemma_first_nul_is_c_len(buffer, bytes.len() as int);
    assert(buffer.take(bytes.len() as int) =~= bytes);
    encode_utf8_valid_utf8(s);
    encode_utf8_decode_utf8(s);
}

/// No name and no value of the option list holds a zero byte.
pub open spec fn all_nul_free(options: Seq<(Seq<char>, Seq<char>)>) -> bool {
    forall|i: int|
        #![trigger options[i]]
        0 <= i < options.len() ==> nul_free(encode_utf8(options[i].0)) && nul_free(
            encode_utf8(options[i].1),
        )
}

/// An option list without zero bytes is marshalled whole, and every name and
/// every value comes back unchanged from its buffer: no key is lost and none
/// is cut short.
pub proof fn lemma_options_round_trip(options: Seq<(Seq<char>, Seq<char>)>)
    requires
        all_nul_free(options),
    ensures
        marshalled(options) is Ok,
        marshalled(options)->Ok_0.len() == options.len(),
        forall|i: int|
            #![trigger options[i]]
            0 <= i < options.len() ==> {
                &&& read_back(marshalled(options)->Ok_0[i].0) == Ok::<Seq<char>, ErrorModel>(
                    options[i].0,
                )
                &&& read_back(marshalled(options)->Ok_0[i].1) == Ok::<Seq<char>, ErrorModel>(
                    options[i].1,
                )
            },
    decreases options.len(),
{
    if options.len() > 0 {
        let front = options.drop_last();
        assert forall|i: int| #![trigger front[i]] 0 <= i < front.len() implies nul_free(
            encode_utf8(front[i].0),
        ) && nul_free(encode_utf8(front[i].1)) by {
            assert(front[i] == options[i]);
        }
        lemma_options_round_trip(front);
        let last = options.last();
        assert(last == options[options.len() - 1]);
        lemma_marshal_round_trip(last.0);
        lemma_marshal_round_trip(last.1);
        let pairs = marshalled(options)->Ok_0;
        assert forall|i: int| #![trigger options[i]] 0 <= i < options.len() implies {
            &&& read_back(pairs[i].0) == Ok::<Seq<char>, ErrorModel>(options[i].0)
            &&& read_back(pairs[i].1) == Ok::<Seq<char>, ErrorModel>(options[i].1)
        } by {
            if i < front.len() {
                assert(front[i] == options[i]);
            }
        }
    }
}

} // verus!
