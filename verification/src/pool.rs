//! Decisions of the single rendering worker that serves a tile rendering pool.

use crate::image_renderer::{rendering_error_text, Image, RenderingError, StyleLoadError};
use vstd::prelude::*;

verus! {

/// Errors that can occur in the single-threaded render pool.
#[derive(Debug)]
pub enum SingleThreadedRenderPoolError {
    /// An I/O error occurred during rendering operations.
    IOError(StyleLoadError),
    /// A rendering error occurred during map rendering.
    RenderingError(RenderingError),
    /// Failed to send a rendering request to the worker thread.
    FailedToSendRequest,
    /// Failed to receive a response from the worker thread.
    FailedToReceiveResponse,
}

/// The text shown for a pool error; the first two show the error they carry.
pub open spec fn pool_error_text(e: SingleThreadedRenderPoolError) -> Seq<char> {
    match e {
        SingleThreadedRenderPoolError::IOError(io) => io.message@,
        SingleThreadedRenderPoolError::RenderingError(r) => rendering_error_text(r),
        SingleThreadedRenderPoolError::FailedToSendRequest => "Failed to send request to rendering thread"@,
        SingleThreadedRenderPoolError::FailedToReceiveResponse => "Failed to receive response from rendering thread"@,
    }
}

impl SingleThreadedRenderPoolError {
    /// The text shown for this error.
    pub fn to_string(&self) -> (s: String)
        ensures
            s@ == pool_error_text(*self),
    {
        proof {
            reveal_strlit("Failed to send request to rendering thread");
            reveal_strlit("Failed to receive response from rendering thread");
        }
        match self {
            SingleThreadedRenderPoolError::IOError(io) => io.message.clone(),
            SingleThreadedRenderPoolError::RenderingError(r) => r.to_string(),
            SingleThreadedRenderPoolError::FailedToSendRequest => "Failed to send request to rendering thread".to_owned(),
            SingleThreadedRenderPoolError::FailedToReceiveResponse => "Failed to receive response from rendering thread".to_owned(),
        }
    }
}

/// Whether a worker that has loaded `loaded` must load `style` before rendering.
pub open spec fn needs_load(loaded: Option<Seq<u8>>, style: Seq<u8>) -> bool {
    loaded != Some(style)
}

/// The style a worker has loaded after it tried to load `style`: that style
/// when the load succeeded, and what it had before when it failed.
pub open spec fn loaded_after(loaded: Option<Seq<u8>>, style: Seq<u8>, succeeded: bool) -> Option<
    Seq<u8>,
> {
    if succeeded {
        Some(style)
    } else {
        loaded
    }
}

/// Styles are cached: once a style has loaded, further requests for it render
/// without loading it again, until a request for another style loads that
/// one; a failed load changes nothing about which requests load.
pub proof fn lemma_loaded_style_is_reused(loaded: Option<Seq<u8>>, style: Seq<u8>, other: Seq<u8>)
    ensures
        !needs_load(loaded_after(loaded, style, true), style),
        other != style ==> needs_load(loaded_after(loaded, style, true), other),
        needs_load(loaded_after(loaded, style, false), other) == needs_load(loaded, other),
        needs_load(None, style),
{
}

/// What the pool's worker remembers between requests: the style it has loaded,
/// named by the bytes of its (normalised) path.
#[derive(Debug)]
pub struct RenderWorker {
    current_style: Option<Vec<u8>>,
}

impl RenderWorker {
    /// The style that the worker has loaded, if any.
    pub closed spec fn loaded_style(self) -> Option<Seq<u8>> {
        match self.current_style {
            Some(path) => Some(path@),
            None => None,
        }
    }

    /// Whether a request for `style` makes the worker load it first.
    pub open spec fn must_load(self, style: Seq<u8>) -> bool {
        needs_load(self.loaded_style(), style)
    }

    /// A worker that has loaded no style yet.
    pub fn new() -> (w: Self)
        ensures
            w.loaded_style() is None,
    {
        RenderWorker { current_style: None }
    }

    /// Whether a request for `style` makes the worker load it first: it does
    /// unless that style is the one it has loaded.
    pub fn needs_style(&self, style: &[u8]) -> (b: bool)
        ensures
            b == self.must_load(style@),
    {
        match &self.current_style {
            None => true,
            Some(current) => {
                if current.len() != style.len() {
                    return true;
                }
                let mut i: usize = 0;
                while i < style.len()
                    invariant
                        self.loaded_style() == Some(current@),
                        current@.len() == style@.len(),
                        0 <= i <= style@.len(),
                        forall|j: int| 0 <= j < i ==> current@[j] == style@[j],
                    decreases style@.len() - i,
                {
                    if current[i] != style[i] {
                        proof {
                            assert(current@[i as int] != style@[i as int]);
                            assert(current@ != style@);
                        }
                        return true;
                    }
                    i = i + 1;
                }
                proof {
                    assert(current@ =~= style@);
                }
                false
            },
        }
    }

    /// Records how loading `style` went. When it loaded, the worker remembers
    /// it and goes on to render; when it failed, the worker keeps what it had
    /// and the request is answered with the error.
    pub fn style_loaded(&mut self, style: &[u8], outcome: Result<(), StyleLoadError>) -> (r: Result<
        (),
        SingleThreadedRenderPoolError,
    >)
        ensures
            final(self).loaded_style() == loaded_after(
                old(self).loaded_style(),
                style@,
                outcome is Ok,
            ),
            outcome is Ok ==> r is Ok,
            outcome matches Err(e) ==> r == Err::<(), _>(SingleThreadedRenderPoolError::IOError(e)),
    {
        match outcome {
            Ok(()) => {
                let mut path: Vec<u8> = Vec::new();
                let mut i: usize = 0;
                while i < style.len()
                    invariant
                        0 <= i <= style@.len(),
                        path@ =~= style@.subrange(0, i as int),
                    decreases style@.len() - i,
                {
                    path.push(style[i]);
                    i = i + 1;
                }
                proof {
                    assert(path@ =~= style@);
                }
                self.current_style = Some(path);
                Ok(())
            },
            Err(e) => Err(SingleThreadedRenderPoolError::IOError(e)),
        }
    }
}

/// The answer to a request once the tile has been rendered.
pub fn tile_response(result: Result<Image, RenderingError>) -> (r: Result<
    Image,
    SingleThreadedRenderPoolError,
>)
    ensures
        result matches Ok(img) ==> r == Ok::<Image, SingleThreadedRenderPoolError>(img),
        result matches Err(e) ==> r == Err::<Image, _>(
            SingleThreadedRenderPoolError::RenderingError(e),
        ),
{
    match result {
        Ok(img) => Ok(img),
        Err(e) => Err(SingleThreadedRenderPoolError::RenderingError(e)),
    }
}

} // verus!
