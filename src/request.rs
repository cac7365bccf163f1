use crate::command::call_result;
use crate::error::SwapError;
use crate::table::nul_at;
use vstd::prelude::*;
use vstd::string::StringSliceAdditionalSpecFns;

verus! {

/// The request that registers a new swap area: the device path as a
/// null-terminated byte string, and the start offset and length of the area.
#[allow(non_camel_case_types)]
#[derive(Debug, Clone)]
pub struct swapres {
    pub sr_name: Vec<u8>,
    pub sr_start: libc::off_t,
    pub sr_length: libc::off_t,
}

/// Both the start offset and the length are whole multiples of 512 bytes.
pub open spec fn aligned(start: u64, length: u64) -> bool {
    start % 512 == 0 && length % 512 == 0
}

/// The largest byte offset or length that the request's signed 64-bit
/// fields can hold.
pub const OFFSET_MAX: u64 = 0x7fff_ffff_ffff_ffff;

/// Both the start offset and the length fit the request's signed fields.
pub open spec fn in_range(start: u64, length: u64) -> bool {
    start <= OFFSET_MAX && length <= OFFSET_MAX
}

/// A byte string that can be handed on as a null-terminated path: not
/// empty, and without a null byte of its own.
pub open spec fn valid_path(b: Seq<u8>) -> bool {
    b.len() > 0 && !b.contains(0u8)
}

impl swapres {
    /// Validates an add request and lays it out for the control call.
    ///
    /// Alignment is checked first, then that start and length fit a signed
    /// 64-bit offset, then the path; the first failing check decides the
    /// error. On success the path's bytes are followed by one null byte, and
    /// start and length keep their values.
    pub fn new(name: &str, start: u64, length: u64) -> (r: Result<swapres, SwapError>)
        ensures
            r is Ok <==> aligned(start, length) && in_range(start, length) && valid_path(
                name.spec_bytes(),
            ),
            start % 512 != 0 ==> r == Err::<swapres, SwapError>(SwapError::StartNotAligned(start)),
            start % 512 == 0 && length % 512 != 0 ==> r == Err::<swapres, SwapError>(
                SwapError::LengthNotAligned(length),
            ),
            aligned(start, length) && start > OFFSET_MAX ==> r == Err::<swapres, SwapError>(
                SwapError::StartTooLarge(start),
            ),
            aligned(start, length) && start <= OFFSET_MAX && length > OFFSET_MAX ==> r == Err::<
                swapres,
                SwapError,
            >(SwapError::LengthTooLarge(length)),
            aligned(start, length) && in_range(start, length) && name.spec_bytes().len() == 0 ==> r == Err::<swapres, SwapError>(
                SwapError::EmptyPath,
            ),
            aligned(start, length) && in_range(start, length) && name.spec_bytes().len() > 0
                && name.spec_bytes().contains(0u8)
                ==> (r matches Err(SwapError::NulInPath(i)) && nul_at(name.spec_bytes(), i as int)),
            r matches Ok(q) ==> {
                &&& q.sr_name@ == name.spec_bytes().push(0u8)
                &&& q.sr_start as int == start as int
                &&& q.sr_length as int == length as int
            },
    {
        if start % 512 != 0 {
            return Err(SwapError::StartNotAligned(start));
        }
        if length % 512 != 0 {
            return Err(SwapError::LengthNotAligned(length));
        }
        if start > OFFSET_MAX {
            return Err(SwapError::StartTooLarge(start));
        }
        if length > OFFSET_MAX {
            return Err(SwapError::LengthTooLarge(length));
        }
        let b = name.as_bytes();
        if b.len() == 0 {
            return Err(SwapError::EmptyPath);
        }
        let mut path: Vec<u8> = Vec::new();
        let mut i: usize = 0;
        while i < b.len()
            invariant
                aligned(start, length),
                in_range(start, length),
                b@ == name.spec_bytes(),
                i <= b@.len(),
                path@ == b@.take(i as int),
                forall|j: int| 0 <= j < i ==> b@[j] != 0,
            decreases b@.len() - i,
        {
            if b[i] == 0 {
                assert(nul_at(b@, i as int));
                return Err(SwapError::NulInPath(i));
            }
            path.push(b[i]);
            i = i + 1;
            assert(path@ =~= b@.take(i as int));
        }
        assert(path@ =~= b@);
        assert(!b@.contains(0u8));
        path.push(0);
        Ok(swapres {
            sr_name: path,
            sr_start: start as libc::off_t,
            sr_length: length as libc::off_t,
        })
    }
}

/// Reads what the control call returned for an add request: -1 is a
/// failure with the platform error code `errno`, zero is success, and any
/// other value is not one the call defines for this command.
pub fn add_result(ret: i32, errno: i32) -> (r: Result<(), SwapError>)
    ensures
        ret == -1 ==> r == Err::<(), SwapError>(SwapError::Os(errno)),
        ret == 0 ==> r is Ok,
        ret != -1 && ret != 0 ==> r == Err::<(), SwapError>(
            SwapError::UnexpectedReturn(#[verifier::truncate] (ret as u32)),
        ),
{
    match call_result(ret, errno) {
        Err(e) => Err(e),
        Ok(n) => {
            if ret == 0 {
                Ok(())
            } else {
                Err(SwapError::UnexpectedReturn(n))
            }
        },
    }
}

} // verus!
