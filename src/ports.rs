use vstd::prelude::*;

use crate::error::Error;

verus! {

/// The error that a range request meets, if any: an end before the start,
/// or a local range that would run past port 65535.
pub open spec fn range_error(remote_start: u16, remote_end: u16, local_start: u16) -> Option<Error> {
    if remote_end < remote_start {
        Some(Error::InvalidRemotePortEnd)
    } else if local_start + (remote_end - remote_start) > u16::MAX {
        Some(Error::InvalidLocalPortStart)
    } else {
        None
    }
}

/// The (remote port, local port) pairs of a valid range, in order of remote
/// port: the i-th pair is (remote_start + i, local_start + i).
pub open spec fn spec_port_pairs(remote_start: u16, remote_end: u16, local_start: u16) -> Seq<(u16, u16)> {
    Seq::new(
        (remote_end - remote_start + 1) as nat,
        |i: int| ((remote_start + i) as u16, (local_start + i) as u16),
    )
}

/// Checks a range request and, when it is valid, lists its port pairs.
pub fn port_pairs(remote_start: u16, remote_end: u16, local_start: u16) -> (r: Result<Vec<(u16, u16)>, Error>)
    ensures
        match range_error(remote_start, remote_end, local_start) {
            Some(e) => r == Err::<Vec<(u16, u16)>, Error>(e),
            None => r is Ok && r->Ok_0@ == spec_port_pairs(remote_start, remote_end, local_start),
        },
{
    if remote_end < remote_start {
        return Err(Error::InvalidRemotePortEnd);
    }
    let span: u16 = remote_end - remote_start;
    if u16::MAX - span < local_start {
        return Err(Error::InvalidLocalPortStart);
    }
    let mut pairs: Vec<(u16, u16)> = Vec::new();
    let mut i: u16 = 0;
    loop
        invariant
            i <= span,
            remote_start + span <= u16::MAX,
            local_start + span <= u16::MAX,
            span == remote_end - remote_start,
            pairs@ == spec_port_pairs(remote_start, remote_end, local_start).take(i as int),
        decreases span - i,
    {
        pairs.push((remote_start + i, local_start + i));
        assert(pairs@ =~= spec_port_pairs(remote_start, remote_end, local_start).take(i + 1));
        if i == span {
            assert(pairs@ =~= spec_port_pairs(remote_start, remote_end, local_start));
            return Ok(pairs);
        }
        i = i + 1;
    }
}

} // verus!
