//! Top-level (`xdg_toplevel`) window construction.
use vstd::prelude::*;
use crate::geometry::Size;
use crate::surface::SurfaceId;
use crate::surfaces::{SurfaceState, spec_fresh_surface};

verus! {

/// Initial logical size used when the builder names none.
pub open spec fn spec_default_initial_size() -> Size {
    Size { width: 800, height: 600 }
}

/// An `xdg_toplevel` request issued while building a toplevel.
#[derive(Debug, PartialEq, Eq)]
pub enum ToplevelRequest {
    /// `set_title`.
    SetTitle(String),
    /// `set_app_id`.
    SetAppId(String),
    /// `set_min_size`.
    SetMinSize {
        /// Width.
        width: i32,
        /// Height.
        height: i32,
    },
    /// `set_max_size`.
    SetMaxSize {
        /// Width.
        width: i32,
        /// Height.
        height: i32,
    },
}

/// Builder for a toplevel window.
///
/// Defaults: no title, the application's package name as app id (given
/// by the caller of [`ToplevelBuilder::plan`]), initial size 800×600, no
/// min / max constraints.
pub struct ToplevelBuilder {
    /// Window title.
    pub title: Option<String>,
    /// `xdg_toplevel` app id.
    pub app_id: Option<String>,
    /// Initial logical size hint.
    pub initial_size: Option<Size>,
    /// Minimum logical size.
    pub min_size: Option<Size>,
    /// Maximum logical size.
    pub max_size: Option<Size>,
}

/// What building a toplevel does once its protocol objects exist: the
/// requests to send before the first commit, and the state to register.
pub struct ToplevelPlan {
    /// Requests, in order.
    pub requests: Vec<ToplevelRequest>,
    /// The app id sent.
    pub app_id: String,
    /// Initial state of the toplevel.
    pub state: SurfaceState,
}

/// The requests of building a toplevel that sends app id `app_id`:
/// the title when set, the app id, then the min and max sizes when set.
pub open spec fn spec_toplevel_requests(b: ToplevelBuilder, app_id: String) -> Seq<ToplevelRequest> {
    (match b.title {
        Some(t) => seq![ToplevelRequest::SetTitle(t)],
        None => Seq::empty(),
    }) + seq![ToplevelRequest::SetAppId(app_id)] + (match b.min_size {
        Some(m) => seq![ToplevelRequest::SetMinSize { width: m.width as i32, height: m.height as i32 }],
        None => Seq::empty(),
    }) + (match b.max_size {
        Some(m) => seq![ToplevelRequest::SetMaxSize { width: m.width as i32, height: m.height as i32 }],
        None => Seq::empty(),
    })
}

/// The arguments of `set_min_size` / `set_max_size` for an optional size
/// (`None` sends 0 × 0, meaning "no constraint").
pub open spec fn spec_size_hint_args(size: Option<Size>) -> (i32, i32) {
    match size {
        Some(s) => (s.width as i32, s.height as i32),
        None => (0i32, 0i32),
    }
}

/// The arguments of `set_min_size` / `set_max_size` for an optional size.
pub fn size_hint_args(size: Option<Size>) -> (r: (i32, i32))
    ensures
        r == spec_size_hint_args(size),
{
    match size {
        Some(s) => (s.width as i32, s.height as i32),
        None => (0, 0),
    }
}

impl ToplevelBuilder {
    /// A builder with every option unset.
    pub fn new() -> (b: ToplevelBuilder)
        ensures
            b.title is None,
            b.app_id is None,
            b.initial_size is None,
            b.min_size is None,
            b.max_size is None,
    {
        ToplevelBuilder { title: None, app_id: None, initial_size: None, min_size: None, max_size: None }
    }

    /// Set the window title.
    pub fn with_title(self, title: String) -> (b: ToplevelBuilder)
        ensures
            b.title == Some(title),
            b.app_id == self.app_id,
            b.initial_size == self.initial_size,
            b.min_size == self.min_size,
            b.max_size == self.max_size,
    {
        ToplevelBuilder { title: Some(title), ..self }
    }

    /// Set the `xdg_toplevel` app id (compositors group windows by it).
    pub fn with_app_id(self, app_id: String) -> (b: ToplevelBuilder)
        ensures
            b.app_id == Some(app_id),
            b.title == self.title,
            b.initial_size == self.initial_size,
            b.min_size == self.min_size,
            b.max_size == self.max_size,
    {
        ToplevelBuilder { app_id: Some(app_id), ..self }
    }

    /// Set the initial logical size hint.
    pub fn with_initial_size(self, size: Size) -> (b: ToplevelBuilder)
        ensures
            b.initial_size == Some(size),
            b.title == self.title,
            b.app_id == self.app_id,
            b.min_size == self.min_size,
            b.max_size == self.max_size,
    {
        ToplevelBuilder { initial_size: Some(size), ..self }
    }

    /// Set the minimum logical size.
    pub fn with_min_size(self, size: Size) -> (b: ToplevelBuilder)
        ensures
            b.min_size == Some(size),
            b.title == self.title,
            b.app_id == self.app_id,
            b.initial_size == self.initial_size,
            b.max_size == self.max_size,
    {
        ToplevelBuilder { min_size: Some(size), ..self }
    }

    /// Set the maximum logical size.
    pub fn with_max_size(self, size: Size) -> (b: ToplevelBuilder)
        ensures
            b.max_size == Some(size),
            b.title == self.title,
            b.app_id == self.app_id,
            b.initial_size == self.initial_size,
            b.min_size == self.min_size,
    {
        ToplevelBuilder { max_size: Some(size), ..self }
    }

    /// The requests and initial state of the toplevel `id` built from
    /// this builder; `default_app_id` (the application's package name)
    /// is sent when the builder names no app id.
    pub fn plan(self, id: SurfaceId, default_app_id: String) -> (p: ToplevelPlan)
        ensures
            p.requests@ == spec_toplevel_requests(self, p.app_id),
            self.app_id matches Some(a) ==> p.app_id == a,
            self.app_id is None ==> p.app_id == default_app_id,
            spec_fresh_surface(p.state, id, match self.initial_size {
                Some(s) => s,
                None => spec_default_initial_size(),
            }),
    {
        let ghost b = self;
        let initial = match self.initial_size {
            Some(s) => s,
            None => Size { width: 800, height: 600 },
        };
        let mut requests: Vec<ToplevelRequest> = Vec::new();
        if let Some(t) = self.title {
            requests.push(ToplevelRequest::SetTitle(t));
        }
        let app_id = match self.app_id {
            Some(a) => a,
            None => default_app_id,
        };
        requests.push(ToplevelRequest::SetAppId(app_id.clone()));
        if let Some(m) = self.min_size {
            requests.push(ToplevelRequest::SetMinSize { width: m.width as i32, height: m.height as i32 });
        }
        if let Some(m) = self.max_size {
            requests.push(ToplevelRequest::SetMaxSize { width: m.width as i32, height: m.height as i32 });
        }
        assert(requests@ =~= spec_toplevel_requests(b, app_id));
        ToplevelPlan { requests, app_id, state: SurfaceState::fresh(id, initial) }
    }
}

} // verus!
