//! The tri-state return convention of the native side, packed in one `i32`.
//!
//! A non-negative value with bit 30 clear is a synchronous success carrying
//! that value; a non-negative value with bit 30 set is an asynchronous
//! result whose sequence number sits in the low 30 bits; a negative value is
//! an error whose magnitude is an OS error code.
use vstd::prelude::*;

verus! {

/// Bit 30: set on asynchronous results.
pub const ASYNC_BIT: i32 = 0x4000_0000;

/// The low 30 bits: the value or the sequence number.
pub const VAL_MASK: i32 = 0x3fff_ffff;

#[verifier::external_type_specification]
#[verifier::external_body]
pub struct ExIoError(std::io::Error);

/// What `std::io::Error::from_raw_os_error` builds from an OS error code.
pub uninterp spec fn os_error_of(code: i32) -> std::io::Error;

/// Relies on `std::io::Error::from_raw_os_error`: the error it builds
/// depends on the code alone.
#[verifier::external_body]
pub(crate) fn os_error(code: i32) -> (r: std::io::Error)
    ensures
        r == os_error_of(code),
{
    std::io::Error::from_raw_os_error(code)
}

/// The raw encoding of a synchronous success carrying `val`.
pub open spec fn ok_code(val: i32) -> i32 {
    val
}

/// The raw encoding of an asynchronous result with sequence number `seq`.
pub open spec fn async_code(seq: i32) -> i32 {
    (seq + ASYNC_BIT) as i32
}

/// The raw encoding of an error with the positive OS error code `code`.
pub open spec fn err_code(code: i32) -> i32 {
    -code as i32
}

/// A synchronous success: non-negative, bit 30 clear.
pub open spec fn raw_is_ok(raw: i32) -> bool {
    0 <= raw < ASYNC_BIT
}

/// An asynchronous result: non-negative, bit 30 set.
pub open spec fn raw_is_async(raw: i32) -> bool {
    ASYNC_BIT <= raw
}

/// An error: negative.
pub open spec fn raw_is_err(raw: i32) -> bool {
    raw < 0
}

/// The payload of a synchronous success or an asynchronous result.
pub open spec fn raw_payload(raw: i32) -> int {
    if raw_is_async(raw) {
        raw - ASYNC_BIT
    } else {
        raw as int
    }
}

/// The I/O result that a non-asynchronous raw value stands for.
pub open spec fn sync_result_of(raw: i32) -> std::io::Result<i32> {
    if raw >= 0 {
        Ok(raw)
    } else {
        Err(os_error_of(-raw as i32))
    }
}

/// The I/O result that a non-synchronous raw value stands for.
pub open spec fn async_result_of(raw: i32) -> std::io::Result<i32> {
    if raw >= 0 {
        Ok((raw - ASYNC_BIT) as i32)
    } else {
        Err(os_error_of(-raw as i32))
    }
}

proof fn lemma_high_bits(raw: i32)
    ensures
        (raw & !VAL_MASK == 0) == (0 <= raw < ASYNC_BIT),
        (raw & !VAL_MASK == ASYNC_BIT) == (ASYNC_BIT <= raw),
        ASYNC_BIT <= raw ==> raw & VAL_MASK == raw - ASYNC_BIT,
{
    assert((raw & !0x3fff_ffffi32 == 0) == (0 <= raw < 0x4000_0000i32)) by (bit_vector);
    assert((raw & !0x3fff_ffffi32 == 0x4000_0000i32) == (0x4000_0000i32 <= raw)) by (bit_vector);
    assert(0x4000_0000i32 <= raw ==> raw & 0x3fff_ffffi32 == raw - 0x4000_0000i32) by (bit_vector);
}

/// Encoding a value that fits in 30 bits as a synchronous success and
/// decoding it again gives a synchronous success carrying that value.
pub proof fn lemma_ok_round_trip(val: i32)
    requires
        0 <= val < ASYNC_BIT,
    ensures
        raw_is_ok(ok_code(val)),
        !raw_is_async(ok_code(val)),
        !raw_is_err(ok_code(val)),
        raw_payload(ok_code(val)) == val,
        sync_result_of(ok_code(val)) == Ok::<i32, std::io::Error>(val),
{
}

/// Encoding a sequence number that fits in 30 bits as an asynchronous
/// result and decoding it again gives an asynchronous result carrying that
/// sequence number.
pub proof fn lemma_async_round_trip(seq: i32)
    requires
        0 <= seq < ASYNC_BIT,
    ensures
        raw_is_async(async_code(seq)),
        !raw_is_ok(async_code(seq)),
        !raw_is_err(async_code(seq)),
        raw_payload(async_code(seq)) == seq,
        async_result_of(async_code(seq)) == Ok::<i32, std::io::Error>(seq),
{
}

/// Encoding a positive error code and decoding it again gives an error
/// carrying that code.
pub proof fn lemma_err_round_trip(code: i32)
    requires
        code > 0,
    ensures
        raw_is_err(err_code(code)),
        !raw_is_ok(err_code(code)),
        !raw_is_async(err_code(code)),
        err_code(code) != i32::MIN,
        -err_code(code) == code,
        sync_result_of(err_code(code)) == Err::<i32, std::io::Error>(os_error_of(code)),
        async_result_of(err_code(code)) == Err::<i32, std::io::Error>(os_error_of(code)),
{
}

/// A raw result code as it crosses the native boundary.
#[derive(Debug, Copy, Clone)]
pub struct SpaResult(i32);

impl SpaResult {
    /// The raw integer.
    pub closed spec fn raw(self) -> i32 {
        self.0
    }

    pub fn from_raw(res: i32) -> (r: Self)
        ensures
            r.raw() == res,
    {
        SpaResult(res)
    }

    pub fn into_raw(self) -> (r: i32)
        ensures
            r == self.raw(),
    {
        self.0
    }

    /// A synchronous success carrying `val`, which must fit in 30 bits.
    pub fn new_ok(val: i32) -> (r: Self)
        requires
            0 <= val < ASYNC_BIT,
        ensures
            r.raw() == ok_code(val),
    {
        SpaResult(val)
    }

    /// An asynchronous result with sequence number `seq`, which must fit in
    /// 30 bits.
    pub fn new_async(seq: i32) -> (r: Self)
        requires
            0 <= seq < ASYNC_BIT,
        ensures
            r.raw() == async_code(seq),
    {
        assert(0 <= seq < 0x4000_0000i32 ==> seq | 0x4000_0000i32 == seq + 0x4000_0000i32)
            by (bit_vector);
        SpaResult(seq | ASYNC_BIT)
    }

    /// An error with the positive OS error code `code`.
    pub fn new_err(code: i32) -> (r: Self)
        requires
            code > 0,
        ensures
            r.raw() == err_code(code),
    {
        SpaResult(-code)
    }

    /// The value of a synchronous success.
    pub fn unwrap_ok(self) -> (r: i32)
        requires
            raw_is_ok(self.raw()),
        ensures
            r == raw_payload(self.raw()),
    {
        self.0
    }

    /// The sequence number of an asynchronous result.
    pub fn unwrap_async(self) -> (r: i32)
        requires
            raw_is_async(self.raw()),
        ensures
            r == raw_payload(self.raw()),
            0 <= r < ASYNC_BIT,
    {
        proof {
            lemma_high_bits(self.0);
        }
        self.0 & VAL_MASK
    }

    /// The OS error of an error result.
    pub fn unwrap_error(self) -> (r: std::io::Error)
        requires
            raw_is_err(self.raw()),
            self.raw() != i32::MIN,
        ensures
            r == os_error_of(-self.raw() as i32),
    {
        os_error(-self.0)
    }

    pub fn is_ok(self) -> (r: bool)
        ensures
            r == raw_is_ok(self.raw()),
    {
        proof {
            lemma_high_bits(self.0);
        }
        self.0 & !VAL_MASK == 0
    }

    pub fn is_async(self) -> (r: bool)
        ensures
            r == raw_is_async(self.raw()),
    {
        proof {
            lemma_high_bits(self.0);
        }
        self.0 & !VAL_MASK == ASYNC_BIT
    }

    pub fn is_err(self) -> (r: bool)
        ensures
            r == raw_is_err(self.raw()),
    {
        self.0 < 0
    }

    /// A synchronous success or an error; an asynchronous result is a
    /// caller error.
    pub fn into_sync_result(self) -> (r: std::io::Result<i32>)
        requires
            !raw_is_async(self.raw()),
            self.raw() != i32::MIN,
        ensures
            r == sync_result_of(self.raw()),
    {
        if self.0 >= 0 {
            Ok(self.0)
        } else {
            Err(os_error(-self.0))
        }
    }

    /// An asynchronous result or an error; a synchronous success is a
    /// caller error.
    pub fn into_async_result(self) -> (r: std::io::Result<i32>)
        requires
            !raw_is_ok(self.raw()),
            self.raw() != i32::MIN,
        ensures
            r == async_result_of(self.raw()),
    {
        if self.0 >= 0 {
            proof {
                lemma_high_bits(self.0);
            }
            Ok(self.0 & VAL_MASK)
        } else {
            Err(os_error(-self.0))
        }
    }
}

/// Every value that fits in 30 bits may be built into a synchronous success
/// and into an asynchronous result.
pub proof fn lemma_encoders_accept_in_range(v: i32)
    requires
        0 <= v < ASYNC_BIT,
    ensures
        SpaResult::new_ok.requires((v,)),
        SpaResult::new_async.requires((v,)),
{
}

} // verus!
