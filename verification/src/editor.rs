//! The edit state machine: one committed image, at most one pending preview,
//! and the selection that the preview was made from.
//!
//! A preview is always derived from the committed image, never from an earlier
//! preview, and only `confirm` changes what is committed.

use vstd::prelude::*;
use crate::geometry::{DisplayPoint, Scale};
use crate::engine::{apply, block_center, is_replaced, mosaic, sampled_center};
use crate::raster::{Image, ImageView};
use crate::selection::{begun, updated, Area, Selection};

verus! {

/// Where the editor stands between two user actions.
#[derive(Clone, Copy, Debug, PartialEq, Eq, Structural)]
pub enum Phase {
    /// No selection and no preview.
    Idle,
    /// A drag is in progress: there is a selection and no preview yet.
    Selecting,
    /// The drag has ended: the preview shows the mosaic of the selection.
    Previewing,
}

/// The model of a pending preview: the image, and the displayed width and
/// block radius that it was made with.
pub struct PreviewView {
    pub image: ImageView,
    pub displayed_width: u32,
    pub radius: u32,
}

/// The mathematical model of the editor's state.
pub struct EditorView {
    pub committed: ImageView,
    pub preview: Option<PreviewView>,
    pub selection: Option<Area>,
}

impl EditorView {
    /// The committed image is well formed and of a width that an image can
    /// have, and a preview exists only together with a selection and is the
    /// mosaic of the committed image under that selection.
    pub open spec fn wf(self) -> bool {
        &&& self.committed.wf()
        &&& self.committed.width <= u32::MAX
        &&& self.preview matches Some(shown) ==> {
            &&& self.selection matches Some(area)
            &&& shown.image == self.rendered(area, shown.displayed_width, shown.radius)
        }
    }

    /// The state right after `image` was opened.
    pub open spec fn opened(image: ImageView) -> EditorView {
        EditorView { committed: image, preview: None, selection: None }
    }

    /// The phase that the state is in.
    pub open spec fn phase(self) -> Phase {
        if self.selection is None {
            Phase::Idle
        } else if self.preview is None {
            Phase::Selecting
        } else {
            Phase::Previewing
        }
    }

    /// The state after a drag has started at `point`: a fresh selection, and
    /// any preview discarded.
    pub open spec fn begin_selection(self, point: DisplayPoint) -> EditorView {
        EditorView { committed: self.committed, preview: None, selection: begun(point) }
    }

    /// The state after the pointer was dragged to `point`. Only a drag in
    /// progress follows the pointer.
    pub open spec fn update_selection(self, point: DisplayPoint) -> EditorView {
        if self.preview is None {
            EditorView { selection: updated(self.selection, point), ..self }
        } else {
            self
        }
    }

    /// The mosaic of the committed image under `area`, for an image shown
    /// `displayed_width` display units wide and blocks of radius `radius`.
    pub open spec fn rendered(self, area: Area, displayed_width: u32, radius: u32) -> ImageView {
        let scale = Scale { image_width: self.committed.width as u32, displayed_width };
        mosaic(
            self.committed,
            scale.image_point(area.min()),
            scale.image_point(area.max()),
            radius as int,
        )
    }

    /// Whether the pending preview shows pixel `(x, y)` in the color of its
    /// block center. Without a preview no pixel is replaced.
    pub open spec fn replaced(self, x: int, y: int) -> bool {
        match (self.preview, self.selection) {
            (Some(shown), Some(area)) => {
                let scale = Scale {
                    image_width: self.committed.width as u32,
                    displayed_width: shown.displayed_width,
                };
                is_replaced(
                    self.committed,
                    scale.image_point(area.min()),
                    scale.image_point(area.max()),
                    shown.radius as int,
                    x,
                    y,
                )
            },
            _ => false,
        }
    }

    /// The state after the drag has ended: the preview is the mosaic of the
    /// committed image under the selection. Without a selection nothing
    /// changes.
    pub open spec fn finish_selection(self, displayed_width: u32, radius: u32) -> EditorView {
        match self.selection {
            Some(area) => EditorView {
                preview: Some(
                    PreviewView {
                        image: self.rendered(area, displayed_width, radius),
                        displayed_width,
                        radius,
                    },
                ),
                ..self
            },
            None => self,
        }
    }

    /// The state after a confirm: the preview becomes the committed image and
    /// the selection is cleared. Without a preview nothing changes.
    pub open spec fn confirm(self) -> EditorView {
        match self.preview {
            Some(shown) => EditorView { committed: shown.image, preview: None, selection: None },
            None => self,
        }
    }

    /// The image that a save persists: the committed one.
    pub open spec fn save(self) -> ImageView {
        self.committed
    }

    /// The image on screen: the preview while there is one, else the
    /// committed image.
    pub open spec fn displayed(self) -> ImageView {
        match self.preview {
            Some(shown) => shown.image,
            None => self.committed,
        }
    }
}

/// Every transition keeps a well-formed state well formed. In particular a
/// preview, in whatever state it is found, is the mosaic of the image that is
/// committed in that state.
pub proof fn lemma_transitions_keep_wf(
    state: EditorView,
    point: DisplayPoint,
    displayed_width: u32,
    radius: u32,
)
    requires
        state.wf(),
    ensures
        state.begin_selection(point).wf(),
        state.update_selection(point).wf(),
        state.finish_selection(displayed_width, radius).wf(),
        state.confirm().wf(),
{
}

/// What is on screen differs from the committed image only in the replaced
/// pixels: such a pixel shows the committed color of its block center, every
/// other pixel its own committed color.
pub proof fn lemma_displayed_pixel(state: EditorView, x: int, y: int)
    requires
        state.wf(),
        state.committed.contains(x, y),
    ensures
        state.displayed().pixels[(x, y)] == if state.replaced(x, y) {
            state.committed.pixels[(
                block_center(x, state.preview->0.radius as int),
                block_center(y, state.preview->0.radius as int),
            )]
        } else {
            state.committed.pixels[(x, y)]
        },
{
}

/// A new selection discards the earlier preview: after a first drag has been
/// previewed, a second drag yields the mosaic of the committed image under
/// the second selection. The first preview has no part in it, and the
/// committed image is the one from before both drags.
pub proof fn lemma_reselection_starts_from_committed(
    state: EditorView,
    first: Area,
    second: Area,
    displayed_width: u32,
    radius: u32,
)
    ensures
        ({
            let previewed = state.begin_selection(first.start).update_selection(
                first.end,
            ).finish_selection(displayed_width, radius);
            let again = previewed.begin_selection(second.start).update_selection(
                second.end,
            ).finish_selection(displayed_width, radius);
            &&& previewed.displayed() == state.rendered(first, displayed_width, radius)
            &&& again.committed == state.committed
            &&& again.selection == Some(second)
            &&& again.phase() == Phase::Previewing
            &&& again.displayed() == state.rendered(second, displayed_width, radius)
        }),
{
}

/// Ending a drag twice over the same rectangle gives the same preview as
/// ending it once.
pub proof fn lemma_finish_is_idempotent(state: EditorView, displayed_width: u32, radius: u32)
    ensures
        state.finish_selection(displayed_width, radius).finish_selection(displayed_width, radius)
            == state.finish_selection(displayed_width, radius),
{
}

/// Before a confirm a save persists the committed image, untouched by the
/// pending preview; after the confirm it persists exactly the mosaic that was
/// made of the image committed before.
pub proof fn lemma_save_around_confirm(
    state: EditorView,
    area: Area,
    displayed_width: u32,
    radius: u32,
)
    requires
        state.selection == Some(area),
    ensures
        ({
            let previewed = state.finish_selection(displayed_width, radius);
            &&& previewed.save() == state.committed
            &&& previewed.confirm().save() == state.rendered(area, displayed_width, radius)
            &&& previewed.confirm().phase() == Phase::Idle
        }),
{
}

/// A pending preview: the mosaic, and the displayed width and block radius
/// that it was made with.
struct Preview {
    image: Image,
    displayed_width: u32,
    radius: u32,
}

impl View for Preview {
    type V = PreviewView;

    closed spec fn view(&self) -> PreviewView {
        PreviewView {
            image: self.image@,
            displayed_width: self.displayed_width,
            radius: self.radius,
        }
    }
}

/// The editor of one opened image.
pub struct Editor {
    committed: Image,
    preview: Option<Preview>,
    selection: Selection,
}

impl View for Editor {
    type V = EditorView;

    closed spec fn view(&self) -> EditorView {
        EditorView {
            committed: self.committed@,
            preview: match self.preview {
                Some(shown) => Some(shown@),
                None => None,
            },
            selection: self.selection@,
        }
    }
}

impl Editor {
    #[verifier::type_invariant]
    spec fn well_formed(self) -> bool {
        self@.wf()
    }

    /// Opens `image`: it is the committed image, and nothing is selected.
    pub fn new(image: Image) -> (editor: Editor)
        ensures
            editor@ == EditorView::opened(image@),
            editor@.wf(),
    {
        Editor { committed: image, preview: None, selection: Selection::new() }
    }

    /// The phase that the editor is in.
    pub fn phase(&self) -> (phase: Phase)
        ensures
            phase == self@.phase(),
    {
        if !self.selection.is_active() {
            Phase::Idle
        } else if self.preview.is_none() {
            Phase::Selecting
        } else {
            Phase::Previewing
        }
    }

    /// A drag has started at `point`: the selection starts there, and a
    /// preview left from an earlier drag is discarded. Returns whether there
    /// was such a preview, that is, whether the image to show has changed.
    pub fn begin_selection(&mut self, point: DisplayPoint) -> (discarded: bool)
        ensures
            final(self)@ == old(self)@.begin_selection(point),
            final(self)@.wf(),
            discarded == (old(self)@.preview is Some),
            !discarded ==> final(self)@.displayed() == old(self)@.displayed(),
    {
        proof {
            use_type_invariant(&*self);
        }
        let discarded = self.preview.is_some();
        let mut selection: Selection = self.selection;
        selection.begin(point);
        self.preview = None;
        self.selection = selection;
        discarded
    }

    /// The pointer was dragged to `point`: a selection in progress follows it.
    /// Once the drag has ended the selection stays as it is until the next
    /// drag starts. No image is recomputed.
    pub fn update_selection(&mut self, point: DisplayPoint)
        ensures
            final(self)@ == old(self)@.update_selection(point),
            final(self)@.wf(),
            final(self)@.displayed() == old(self)@.displayed(),
    {
        proof {
            use_type_invariant(&*self);
        }
        if self.preview.is_none() {
            let mut selection: Selection = self.selection;
            selection.update(point);
            self.selection = selection;
        }
    }

    /// The drag has ended: the preview becomes the mosaic of the committed
    /// image under the selection, whatever was previewed before. Returns
    /// whether there was a selection, that is, whether the preview was made.
    ///
    /// `displayed_width` is the width at which the image is shown, in display
    /// units, and `radius` the block radius.
    pub fn finish_selection(&mut self, displayed_width: u32, radius: u32) -> (made: bool)
        requires
            displayed_width > 0,
            radius >= 1,
        ensures
            final(self)@ == old(self)@.finish_selection(displayed_width, radius),
            final(self)@.wf(),
            made == (old(self)@.selection is Some),
            !made ==> final(self)@.displayed() == old(self)@.displayed(),
    {
        proof {
            use_type_invariant(&*self);
        }
        match self.selection.normalized() {
            Some(corners) => {
                let scale = Scale { image_width: self.committed.width(), displayed_width };
                let min = scale.to_image_space(corners.0);
                let max = scale.to_image_space(corners.1);
                let image = apply(&self.committed, min, max, radius);
                self.preview = Some(Preview { image, displayed_width, radius });
                true
            },
            None => false,
        }
    }

    /// Confirms the preview: it becomes the committed image, and the preview
    /// and the selection are cleared. What is on screen stays the same.
    /// Returns whether there was a preview to confirm; without one nothing
    /// changes.
    pub fn confirm(&mut self) -> (done: bool)
        ensures
            final(self)@ == old(self)@.confirm(),
            final(self)@.wf(),
            final(self)@.displayed() == old(self)@.displayed(),
            done == (old(self)@.preview is Some),
    {
        proof {
            use_type_invariant(&*self);
        }
        let confirmed: Option<Image> = match &self.preview {
            Some(shown) => Some(shown.image.clone()),
            None => None,
        };
        match confirmed {
            Some(image) => {
                self.preview = None;
                self.selection = Selection::new();
                self.committed = image;
                true
            },
            None => false,
        }
    }

    /// Whether the pending preview shows pixel `(x, y)` in the color of its
    /// block center rather than in its own. Without a preview no pixel is
    /// replaced.
    pub fn replaced(&self, x: u32, y: u32) -> (replaced: bool)
        ensures
            replaced == self@.replaced(x as int, y as int),
    {
        proof {
            use_type_invariant(self);
        }
        match &self.preview {
            Some(shown) => match self.selection.normalized() {
                Some(corners) => {
                    let scale = Scale {
                        image_width: self.committed.width(),
                        displayed_width: shown.displayed_width,
                    };
                    let min = scale.to_image_space(corners.0);
                    let max = scale.to_image_space(corners.1);
                    sampled_center(&self.committed, min, max, shown.radius, x, y).is_some()
                },
                None => false,
            },
            None => false,
        }
    }

    /// The image to persist: a copy of the committed image. A pending preview
    /// has no part in it.
    pub fn save(&self) -> (image: Image)
        ensures
            image@ == self@.save(),
    {
        self.committed.clone()
    }

    /// The committed image.
    pub fn committed(&self) -> (image: &Image)
        ensures
            image@ == self@.committed,
    {
        &self.committed
    }

    /// The pending preview, if there is one.
    pub fn preview(&self) -> (image: Option<&Image>)
        ensures
            image is Some == self@.preview is Some,
            image matches Some(shown) ==> shown@ == self@.displayed(),
    {
        match &self.preview {
            Some(shown) => Some(&shown.image),
            None => None,
        }
    }

    /// The image to show: the preview while there is one, else the committed
    /// image.
    pub fn displayed(&self) -> (image: &Image)
        ensures
            image@ == self@.displayed(),
    {
        match &self.preview {
            Some(shown) => &shown.image,
            None => &self.committed,
        }
    }

    /// The selection's two corners as they were dragged, if there is one.
    pub fn selection(&self) -> (found: Option<Area>)
        ensures
            found == self@.selection,
    {
        self.selection.area()
    }
}

} // verus!
