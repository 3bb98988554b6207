//! The Resource Guard: exclusive ownership of the platform handle, and the
//! one operation that reads it — extract-and-encode.

use vstd::prelude::*;
use vstd::rwlock::{RwLock, RwLockPredicate};
use crate::error::ExtractError;
use crate::icon::{
    payload_valid, snapshot_consistent, IconPayload, IconSnapshot, PayloadV, SnapshotV,
};

verus! {

/// The opaque platform resource: a live connection to the platform's
/// folder-icon facilities, not safely shareable across threads without
/// external synchronization.  What the extraction reads from it is the
/// current default-folder icon as a raw bitmap, so that bitmap is what a
/// handle carries; the handle is reachable only through the guard.
pub struct PlatformHandle {
    snapshot: IconSnapshot,
}

impl View for PlatformHandle {
    type V = SnapshotV;

    closed spec fn view(&self) -> SnapshotV {
        self.snapshot@
    }
}

impl PlatformHandle {
    /// Wraps a freshly read bitmap as a ready handle.
    pub fn new(snapshot: IconSnapshot) -> (r: PlatformHandle)
        ensures
            r@ == snapshot@,
            snapshot_consistent(r@),
    {
        proof {
            use_type_invariant(&snapshot);
        }
        PlatformHandle { snapshot }
    }

    /// The current default-folder icon as a raw bitmap.  What comes back is
    /// never torn: it is consistent, four bytes per declared pixel.
    pub fn folder_icon_base(&self) -> (r: &IconSnapshot)
        ensures
            r@ == self@,
            snapshot_consistent(self@),
    {
        proof {
            use_type_invariant(&self.snapshot);
        }
        &self.snapshot
    }
}

/// Builds the platform resource once, at process startup.  The construction
/// of the handle is an external collaborator: the core depends on it only
/// through its success/failure contract, so the method promises nothing of
/// its outcome.
pub trait HandleBuilder {
    fn build(&self) -> Result<PlatformHandle, String>;
}

/// Converts a raw bitmap into the target image format.  The encoder is an
/// external collaborator: the core depends on it only through its
/// success/failure contract, so the method promises nothing of its outcome.
pub trait IconEncoder {
    fn encode(&self, snapshot: &IconSnapshot) -> Result<Vec<u8>, String>;
}

/// The lock predicate of the guard: the handle stored in the lock always
/// carries one fixed bitmap.  The guard is immutable once constructed —
/// no operation replaces the inner handle.
pub struct HandlePred {
    pub target: SnapshotV,
}

impl RwLockPredicate<PlatformHandle> for HandlePred {
    open spec fn inv(self, v: PlatformHandle) -> bool {
        v@ == self.target
    }
}

/// Owner of exactly one platform handle, wrapped in a verified
/// mutual-exclusion primitive.  No two operations observe the handle
/// concurrently: every access path funnels through the lock, whose
/// exclusivity vstd proves, so the invariant is machine-checked rather than
/// manually argued.  The lock has no poisoned state, which settles the
/// recovery question explicitly: acquisition always succeeds.
pub struct ResourceGuard<E: IconEncoder> {
    lock: RwLock<PlatformHandle, HandlePred>,
    encoder: E,
}

impl<E: IconEncoder> ResourceGuard<E> {
    /// The bitmap carried by the guarded handle, fixed for the guard's
    /// lifetime.
    pub closed spec fn snapshot(&self) -> SnapshotV {
        self.lock.pred().target
    }

    /// Takes exclusive ownership of a ready handle and of the encoder that
    /// every extraction will use.
    pub fn new(handle: PlatformHandle, encoder: E) -> (r: ResourceGuard<E>)
        ensures
            r.snapshot() == handle@,
            snapshot_consistent(r.snapshot()),
    {
        proof {
            use_type_invariant(&handle.snapshot);
        }
        let ghost target = handle@;
        let lock = RwLock::new(handle, Ghost(HandlePred { target }));
        ResourceGuard { lock, encoder }
    }

    /// Acquires exclusive access to the handle — blocking the calling thread
    /// while another extraction is in progress — reads the current icon
    /// bitmap, releases the handle unchanged, and hands the bitmap to the
    /// encoder.
    ///
    /// Every success declares the dimensions of the guarded bitmap; every
    /// failure is an encoding failure, since lock acquisition cannot fail.
    /// The guard itself is untouched: repeated calls run against the same
    /// bitmap.
    pub fn extract_icon_base(&self) -> (r: Result<IconPayload, ExtractError>)
        ensures
            r matches Ok(p) ==> p@.width == self.snapshot().width && p@.height
                == self.snapshot().height,
            r matches Err(e) ==> e is EncodingFailure,
            snapshot_consistent(self.snapshot()),
    {
        let (handle, write_handle) = self.lock.acquire_write();
        let width = handle.folder_icon_base().width();
        let height = handle.folder_icon_base().height();
        let encoded = self.encoder.encode(handle.folder_icon_base());
        write_handle.release_write(handle);
        shape_encode_result(width, height, encoded)
    }
}

/// What one extraction returns for each value the encoder can hand back:
/// a success becomes a payload carrying the encoder's bytes beside the
/// bitmap's dimensions, a failure becomes an encoding failure carrying the
/// encoder's description verbatim.
pub fn shape_encode_result(width: u32, height: u32, encoded: Result<Vec<u8>, String>) -> (r:
    Result<IconPayload, ExtractError>)
    ensures
        encoded matches Ok(bytes) ==> r matches Ok(p) && p@ == (PayloadV {
            bytes: bytes@,
            width: width as nat,
            height: height as nat,
        }),
        encoded matches Err(d) ==> r matches Err(e) && e matches ExtractError::EncodingFailure(d2)
            && d2@ == d@,
        encoded matches Ok(bytes) ==> (payload_valid(r->Ok_0@) <==> bytes@.len() > 0),
{
    match encoded {
        Ok(bytes) => Ok(IconPayload { bytes, width, height }),
        Err(d) => Err(ExtractError::EncodingFailure(d)),
    }
}

} // verus!
