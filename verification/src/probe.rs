//! Evaluation of the camera presence probe.
//!
//! The platform's consent store keeps, per application, usage sessions
//! with a last-used-stop marker; a marker of zero means the session is
//! still open, so the camera is in use. The caller enumerates the store
//! and hands the markers over as plain values; the decision of what they
//! mean is made here.

use vstd::prelude::*;

verus! {

/// One recorded usage session: its last-used-stop marker, or nothing
/// where the marker could not be read.
#[derive(Clone, Copy, Debug)]
pub struct SessionRecord {
    pub last_used_stop: Option<u64>,
}

impl SessionRecord {
    /// Whether this session is still open: a readable marker of zero.
    pub open spec fn is_open(self) -> bool {
        self.last_used_stop == Some(0u64)
    }
}

/// What enumerating the consent store yielded.
#[derive(Debug)]
pub enum ProbeReading {
    /// The capability path does not exist at all.
    PathMissing,
    /// The path exists but could not be read.
    ReadFailure,
    /// The sessions recorded under the path, in enumeration order.
    Sessions(Vec<SessionRecord>),
}

/// A probe failure: a read error on an existing capability path.
#[derive(Clone, Copy, Debug, PartialEq, Eq, Structural)]
pub enum ProbeError {
    ReadFailed,
}

/// Whether a reading shows the camera in use: some recorded session is
/// still open.
pub open spec fn spec_camera_in_use(sessions: Seq<SessionRecord>) -> bool {
    exists|i: int| 0 <= i < sessions.len() && sessions[i].is_open()
}

/// Decides camera presence from one reading of the consent store.
///
/// A missing capability path counts as "camera never used", not as an
/// error; a read failure on an existing path is the one probe error;
/// otherwise the camera is in use exactly when any session is open.
pub fn camera_in_use(reading: &ProbeReading) -> (r: Result<bool, ProbeError>)
    ensures
        match reading {
            ProbeReading::PathMissing => r == Ok::<bool, ProbeError>(false),
            ProbeReading::ReadFailure => r == Err::<bool, ProbeError>(ProbeError::ReadFailed),
            ProbeReading::Sessions(sessions) => r == Ok::<bool, ProbeError>(
                spec_camera_in_use(sessions@),
            ),
        },
{
    match reading {
        ProbeReading::PathMissing => Ok(false),
        ProbeReading::ReadFailure => Err(ProbeError::ReadFailed),
        ProbeReading::Sessions(sessions) => {
            let mut i: usize = 0;
            while i < sessions.len()
                invariant
                    reading matches ProbeReading::Sessions(s) && s@ == sessions@,
                    i <= sessions@.len(),
                    forall|j: int| 0 <= j < i ==> !sessions@[j].is_open(),
                decreases sessions@.len() - i,
            {
                let open = match sessions[i].last_used_stop {
                    Some(marker) => marker == 0,
                    None => false,
                };
                if open {
                    assert(sessions@[i as int].is_open());
                    return Ok(true);
                }
                i = i + 1;
            }
            Ok(false)
        },
    }
}

} // verus!
