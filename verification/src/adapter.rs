//! The Boundary Adapter: the single externally callable entry point, its
//! process-wide state, and the flattening of typed failures into the plain
//! strings that cross the process boundary.

use vstd::prelude::*;
use crate::error::{
    carries_encoding_marker, carries_init_marker, flat_message, init_marker,
    lemma_error_transparency, lemma_prefix_of_concat, ExtractError,
};
use crate::guard::{HandleBuilder, IconEncoder, PlatformHandle, ResourceGuard};
use crate::icon::{snapshot_consistent, IconPayload, SnapshotV};

verus! {

/// Process-wide state: exactly one resource guard, constructed during
/// application startup and held for the process lifetime by the host
/// runtime.  It is immutable once constructed — the guard is never
/// reconstructed or replaced during the process's life.
pub struct AppState<E: IconEncoder> {
    guard: ResourceGuard<E>,
}

impl<E: IconEncoder> AppState<E> {
    /// The bitmap carried by the guarded handle, fixed for the process
    /// lifetime.
    pub closed spec fn snapshot(&self) -> SnapshotV {
        self.guard.snapshot()
    }

    /// Runs the builder once and wraps its handle in the guard.  A builder
    /// failure is fatal to startup: it surfaces as an error whose message
    /// begins with the initialization marker, and the host refuses to start.
    pub fn new<B: HandleBuilder>(builder: &B, encoder: E) -> (r: Result<AppState<E>, String>)
        ensures
            r matches Err(m) ==> carries_init_marker(m@),
    {
        let built = builder.build();
        let ghost gb = built;
        let r = init_from_build(built, encoder);
        proof {
            if gb is Err {
                lemma_prefix_of_concat(init_marker(), gb->Err_0@);
            }
        }
        r
    }

    /// The one externally invocable command: delegates directly to the
    /// guard's extraction and flattens any failure into a displayable
    /// string, with no further interpretation.
    ///
    /// Every success declares the dimensions of the guarded bitmap; every
    /// error message begins with the encoding marker.
    pub fn get_folder_icon_base(&self) -> (r: Result<IconPayload, String>)
        ensures
            r matches Ok(p) ==> p@.width == self.snapshot().width && p@.height
                == self.snapshot().height,
            r matches Err(m) ==> carries_encoding_marker(m@),
            snapshot_consistent(self.snapshot()),
    {
        let extracted = self.guard.extract_icon_base();
        let ghost ge = extracted;
        let r = flatten_result(extracted);
        proof {
            if ge is Err {
                lemma_error_transparency(ge->Err_0);
            }
        }
        r
    }
}

/// What process construction returns for each outcome of the builder: a
/// ready handle becomes the process-wide state whose guard carries that
/// handle's bitmap, a construction failure becomes an error message that is
/// exactly the initialization marker followed by the builder's description.
pub fn init_from_build<E: IconEncoder>(built: Result<PlatformHandle, String>, encoder: E) -> (r:
    Result<AppState<E>, String>)
    ensures
        built matches Ok(h) ==> r matches Ok(s) && s.snapshot() == h@ && snapshot_consistent(
            s.snapshot(),
        ),
        built matches Err(d) ==> r matches Err(m) && m@ == init_marker() + d@,
{
    match built {
        Ok(handle) => Ok(AppState { guard: ResourceGuard::new(handle, encoder) }),
        Err(d) => Err(
            String::from_str("Failed to initialize customization context: ").concat(d.as_str()),
        ),
    }
}

/// What the boundary returns for each outcome of the guard: a payload
/// passes through unchanged, a typed failure is flattened to its flat
/// message and nothing else.
pub fn flatten_result(r: Result<IconPayload, ExtractError>) -> (out: Result<IconPayload, String>)
    ensures
        r matches Ok(p) ==> out matches Ok(q) && q == p,
        r matches Err(e) ==> out matches Err(m) && m@ == flat_message(e),
{
    match r {
        Ok(p) => Ok(p),
        Err(e) => Err(e.message()),
    }
}

} // verus!
