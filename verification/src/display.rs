//! Displays and how they are found.
//!
//! Three capture methods are tried in a fixed order: the compositor, then
//! direct access to the primary graphics device, then the raw framebuffer.
//! The first that gives a usable target ends the search. `Enumeration` holds
//! that order: it names the probe to make, takes what the probe gave, and
//! names the next one or the result.

use vstd::prelude::*;
use vstd::string::*;
use crate::drm::{DrmCapturable, DRM_FORMAT_ARGB8888};
use crate::error::{CaptureError, CaptureErrorView};

verus! {

/// One target that the compositor offers for capture.
#[derive(Debug, PartialEq, Eq)]
pub struct CompositorTarget {
    /// The compositor's own handle for the target.
    pub handle: u64,
    pub name: String,
    pub width: usize,
    pub height: usize,
}

/// A capture target of any backend.
#[derive(Debug, PartialEq, Eq)]
pub enum Capturable {
    Compositor(CompositorTarget),
    Drm(DrmCapturable),
}

/// Which backend a display belongs to and how that backend knows it.
pub enum BackendView {
    Compositor { handle: u64 },
    Drm { path: Seq<char>, format: u32 },
}

/// A display as a value: its backend, its name and its size in pixels.
pub struct DisplayView {
    pub backend: BackendView,
    pub name: Seq<char>,
    pub width: usize,
    pub height: usize,
}

impl View for CompositorTarget {
    type V = DisplayView;

    open spec fn view(&self) -> DisplayView {
        DisplayView {
            backend: BackendView::Compositor { handle: self.handle },
            name: self.name@,
            width: self.width,
            height: self.height,
        }
    }
}

/// The display that stands for the whole screen behind a device node.
pub open spec fn drm_display(path: Seq<char>, width: usize, height: usize) -> DisplayView {
    DisplayView {
        backend: BackendView::Drm { path, format: DRM_FORMAT_ARGB8888 },
        name: DrmCapturable::name_spec(path),
        width,
        height,
    }
}

impl View for Capturable {
    type V = DisplayView;

    open spec fn view(&self) -> DisplayView {
        match *self {
            Capturable::Compositor(target) => target@,
            Capturable::Drm(device) => DisplayView {
                backend: BackendView::Drm { path: device.path@, format: device.format },
                name: DrmCapturable::name_spec(device.path@),
                width: device.width,
                height: device.height,
            },
        }
    }
}

/// One capturable target. What it says of itself was read when it was
/// found and does not change afterwards.
#[derive(Debug, PartialEq, Eq)]
pub struct Display(pub Capturable);

impl View for Display {
    type V = DisplayView;

    open spec fn view(&self) -> DisplayView {
        self.0@
    }
}

/// The displays of a list, as values.
pub open spec fn display_views(displays: Seq<Display>) -> Seq<DisplayView> {
    displays.map_values(|display: Display| display@)
}

/// The targets of a list, as the displays they become.
pub open spec fn target_views(targets: Seq<CompositorTarget>) -> Seq<DisplayView> {
    targets.map_values(|target: CompositorTarget| target@)
}

impl Display {
    /// The first display of an enumeration. An enumeration that failed
    /// fails this too; one that found nothing gives `NotFound`.
    pub fn primary(all: Result<Vec<Display>, CaptureError>) -> (first: Result<
        Display,
        CaptureError,
    >)
        ensures
            match all {
                Err(error) => first == Err::<Display, CaptureError>(error),
                Ok(displays) => if displays@.len() == 0 {
                    first == Err::<Display, CaptureError>(CaptureError::NotFound)
                } else {
                    first == Ok::<Display, CaptureError>(displays@[0])
                },
            },
    {
        match all {
            Err(error) => Err(error),
            Ok(displays) => {
                let mut displays = displays;
                if displays.len() == 0 {
                    Err(CaptureError::NotFound)
                } else {
                    Ok(displays.remove(0))
                }
            },
        }
    }

    pub fn width(&self) -> (width: usize)
        ensures
            width == self@.width,
    {
        match &self.0 {
            Capturable::Compositor(target) => target.width,
            Capturable::Drm(device) => device.width,
        }
    }

    pub fn height(&self) -> (height: usize)
        ensures
            height == self@.height,
    {
        match &self.0 {
            Capturable::Compositor(target) => target.height,
            Capturable::Drm(device) => device.height,
        }
    }

    /// The same as `width`: pixels are not scaled.
    pub fn physical_width(&self) -> (width: usize)
        ensures
            width == self@.width,
    {
        self.width()
    }

    /// The same as `height`: pixels are not scaled.
    pub fn physical_height(&self) -> (height: usize)
        ensures
            height == self@.height,
    {
        self.height()
    }

    /// The same as `width`: pixels are not scaled.
    pub fn logical_width(&self) -> (width: usize)
        ensures
            width == self@.width,
    {
        self.width()
    }

    /// The same as `height`: pixels are not scaled.
    pub fn logical_height(&self) -> (height: usize)
        ensures
            height == self@.height,
    {
        self.height()
    }

    /// Every display starts at the upper left corner.
    pub fn origin(&self) -> (origin: (i32, i32))
        ensures
            origin == (0i32, 0i32),
    {
        (0, 0)
    }

    /// A display that was found is online.
    pub fn is_online(&self) -> (online: bool)
        ensures
            online,
    {
        true
    }

    /// Every display counts as primary.
    pub fn is_primary(&self) -> (primary: bool)
        ensures
            primary,
    {
        true
    }

    pub fn name(&self) -> (name: String)
        ensures
            name@ == self@.name,
    {
        match &self.0 {
            Capturable::Compositor(target) => target.name.clone(),
            Capturable::Drm(device) => device.name(),
        }
    }
}

/// A capture method, in the order they are tried.
#[derive(Clone, Copy, Debug, PartialEq, Eq, Structural)]
pub enum Probe {
    /// Ask the compositor which targets it offers.
    Compositor,
    /// Open the primary graphics device node.
    ModeSetting,
    /// Open the raw framebuffer node.
    Framebuffer,
}

/// The node that a probe opens; the compositor has none.
pub open spec fn device_path(probe: Probe) -> Seq<char> {
    match probe {
        Probe::Compositor => Seq::empty(),
        Probe::ModeSetting => "/dev/dri/card0"@,
        Probe::Framebuffer => "/dev/fb0"@,
    }
}

impl Probe {
    /// The node to open for this probe, or `None` for the compositor.
    pub fn path(self) -> (path: Option<&'static str>)
        ensures
            path is None <==> self == Probe::Compositor,
            path matches Some(node) ==> node@ == device_path(self),
    {
        match self {
            Probe::Compositor => None,
            Probe::ModeSetting => Some("/dev/dri/card0"),
            Probe::Framebuffer => Some("/dev/fb0"),
        }
    }
}

/// What a probe gave.
#[derive(Debug, PartialEq, Eq)]
pub enum ProbeOutcome {
    /// The compositor answered with these targets, possibly none.
    Targets(Vec<CompositorTarget>),
    /// The node was opened and reports a screen of this size.
    Device { width: usize, height: usize },
    /// The probe failed with this text.
    Failed(String),
}

/// What a probe gave, as a value.
pub enum ProbeOutcomeView {
    Targets(Seq<DisplayView>),
    Device { width: usize, height: usize },
    Failed(Seq<char>),
}

impl View for ProbeOutcome {
    type V = ProbeOutcomeView;

    open spec fn view(&self) -> ProbeOutcomeView {
        match *self {
            ProbeOutcome::Targets(targets) => ProbeOutcomeView::Targets(target_views(targets@)),
            ProbeOutcome::Device { width, height } => ProbeOutcomeView::Device { width, height },
            ProbeOutcome::Failed(text) => ProbeOutcomeView::Failed(text@),
        }
    }
}

impl ProbeOutcomeView {
    /// What the probe failed with. An answer that is not the kind its probe
    /// gives counts as a failure of that probe.
    pub open spec fn failure(self) -> Seq<char> {
        match self {
            ProbeOutcomeView::Failed(text) => text,
            _ => "Unexpected answer"@,
        }
    }
}

/// Where the search for displays stands.
#[derive(Debug, PartialEq, Eq)]
pub enum Enumeration {
    /// This probe is to be made next.
    Probing(Probe),
    /// The search ended with these displays.
    Found(Vec<Display>),
    /// Every method failed.
    Failed(CaptureError),
}

/// Where the search stands, as a value.
pub enum EnumerationView {
    Probing(Probe),
    Found(Seq<DisplayView>),
    Failed(CaptureErrorView),
}

impl View for Enumeration {
    type V = EnumerationView;

    open spec fn view(&self) -> EnumerationView {
        match *self {
            Enumeration::Probing(probe) => EnumerationView::Probing(probe),
            Enumeration::Found(displays) => EnumerationView::Found(display_views(displays@)),
            Enumeration::Failed(error) => EnumerationView::Failed(error@),
        }
    }
}

impl EnumerationView {
    /// The search as it begins: the compositor is asked first.
    pub open spec fn start() -> EnumerationView {
        EnumerationView::Probing(Probe::Compositor)
    }

    /// The probe to make in this state, or `None` once the search is over.
    pub open spec fn pending(self) -> Option<Probe> {
        match self {
            EnumerationView::Probing(probe) => Some(probe),
            _ => None,
        }
    }

    /// The state after the pending probe gave `outcome`.
    ///
    /// The compositor succeeds only with at least one target, and then all
    /// its targets are the result. A device node that opens gives exactly
    /// one display, the whole screen. Anything else moves on to the next
    /// method, and after the last one to failure with what the last one
    /// failed with. A search that is over stays as it is.
    pub open spec fn advanced(self, outcome: ProbeOutcomeView) -> EnumerationView {
        match self {
            EnumerationView::Probing(Probe::Compositor) => match outcome {
                ProbeOutcomeView::Targets(targets) if targets.len() > 0 => EnumerationView::Found(
                    targets,
                ),
                _ => EnumerationView::Probing(Probe::ModeSetting),
            },
            EnumerationView::Probing(Probe::ModeSetting) => match outcome {
                ProbeOutcomeView::Device { width, height } => EnumerationView::Found(
                    seq![drm_display(device_path(Probe::ModeSetting), width, height)],
                ),
                _ => EnumerationView::Probing(Probe::Framebuffer),
            },
            EnumerationView::Probing(Probe::Framebuffer) => match outcome {
                ProbeOutcomeView::Device { width, height } => EnumerationView::Found(
                    seq![drm_display(device_path(Probe::Framebuffer), width, height)],
                ),
                _ => EnumerationView::Failed(
                    CaptureErrorView::NoCaptureMethod { last: outcome.failure() },
                ),
            },
            _ => self,
        }
    }
}

/// The displays that the compositor's targets become, in the same order.
fn displays_of(targets: Vec<CompositorTarget>) -> (displays: Vec<Display>)
    ensures
        display_views(displays@) == target_views(targets@),
{
    let mut targets = targets;
    let mut displays: Vec<Display> = Vec::new();
    let ghost all = target_views(targets@);
    while targets.len() > 0
        invariant
            display_views(displays@) + target_views(targets@) == all,
        decreases targets.len(),
    {
        let ghost before = targets@;
        let ghost found = displays@;
        let target = targets.remove(0);
        displays.push(Display(Capturable::Compositor(target)));
        assert(display_views(displays@) + target_views(targets@) =~= display_views(found)
            + target_views(before));
    }
    assert(display_views(displays@) + target_views(targets@) =~= display_views(displays@));
    displays
}

/// The single display for the screen behind the node that `probe` opens.
fn whole_screen(probe: Probe, width: usize, height: usize) -> (displays: Vec<Display>)
    requires
        probe != Probe::Compositor,
    ensures
        display_views(displays@) == seq![drm_display(device_path(probe), width, height)],
{
    let path = match probe {
        Probe::Framebuffer => "/dev/fb0",
        _ => "/dev/dri/card0",
    };
    let mut displays: Vec<Display> = Vec::new();
    displays.push(Display(Capturable::Drm(DrmCapturable::new(path, width, height))));
    assert(display_views(displays@) =~= seq![drm_display(device_path(probe), width, height)]);
    displays
}

impl Enumeration {
    /// Begins a search.
    pub fn start() -> (search: Enumeration)
        ensures
            search@ == EnumerationView::start(),
    {
        Enumeration::Probing(Probe::Compositor)
    }

    /// The probe to make now, or `None` once the search is over.
    pub fn pending(&self) -> (probe: Option<Probe>)
        ensures
            probe == self@.pending(),
    {
        match self {
            Enumeration::Probing(probe) => Some(*probe),
            _ => None,
        }
    }

    /// Takes what the pending probe gave and moves on.
    pub fn advance(self, outcome: ProbeOutcome) -> (next: Enumeration)
        ensures
            next@ == self@.advanced(outcome@),
    {
        match self {
            Enumeration::Probing(Probe::Compositor) => match outcome {
                ProbeOutcome::Targets(targets) => if targets.len() > 0 {
                    Enumeration::Found(displays_of(targets))
                } else {
                    Enumeration::Probing(Probe::ModeSetting)
                },
                _ => Enumeration::Probing(Probe::ModeSetting),
            },
            Enumeration::Probing(Probe::ModeSetting) => match outcome {
                ProbeOutcome::Device { width, height } => Enumeration::Found(
                    whole_screen(Probe::ModeSetting, width, height),
                ),
                _ => Enumeration::Probing(Probe::Framebuffer),
            },
            Enumeration::Probing(Probe::Framebuffer) => match outcome {
                ProbeOutcome::Device { width, height } => Enumeration::Found(
                    whole_screen(Probe::Framebuffer, width, height),
                ),
                ProbeOutcome::Failed(text) => Enumeration::Failed(
                    CaptureError::NoCaptureMethod { last: text },
                ),
                ProbeOutcome::Targets(_) => Enumeration::Failed(
                    CaptureError::NoCaptureMethod { last: String::from_str("Unexpected answer") },
                ),
            },
            done => done,
        }
    }

    /// The result of a search that is over, or the search itself while a
    /// probe is pending.
    pub fn finish(self) -> (result: Result<Result<Vec<Display>, CaptureError>, Enumeration>)
        ensures
            match self {
                Enumeration::Probing(probe) => result == Err::<
                    Result<Vec<Display>, CaptureError>,
                    Enumeration,
                >(self),
                Enumeration::Found(displays) => result == Ok::<
                    Result<Vec<Display>, CaptureError>,
                    Enumeration,
                >(Ok(displays)),
                Enumeration::Failed(error) => result == Ok::<
                    Result<Vec<Display>, CaptureError>,
                    Enumeration,
                >(Err(error)),
            },
    {
        match self {
            Enumeration::Probing(probe) => Err(Enumeration::Probing(probe)),
            Enumeration::Found(displays) => Ok(Ok(displays)),
            Enumeration::Failed(error) => Ok(Err(error)),
        }
    }
}

/// Fallback order. When the compositor gives no target, be it that it
/// answers with none, fails, or answers out of kind, the graphics device is
/// tried next. When that opens, its screen is the one display found, the
/// search is over with no probe pending, so the framebuffer is never tried,
/// and nothing that is handed in afterwards changes the result.
pub proof fn lemma_fallback_stops_at_first_success(
    compositor: ProbeOutcomeView,
    width: usize,
    height: usize,
    later: ProbeOutcomeView,
)
    requires
        !(compositor matches ProbeOutcomeView::Targets(targets) && targets.len() > 0),
    ensures
        EnumerationView::start().pending() == Some(Probe::Compositor),
        EnumerationView::start().advanced(compositor).pending() == Some(Probe::ModeSetting),
        ({
            let found = EnumerationView::start().advanced(compositor).advanced(
                ProbeOutcomeView::Device { width, height },
            );
            &&& found == EnumerationView::Found(
                seq![drm_display(device_path(Probe::ModeSetting), width, height)],
            )
            &&& found.pending() is None
            &&& found.advanced(later) == found
        }),
{
}

/// The compositor's answer is taken whole: with at least one target the
/// search is over at once, with exactly those targets in their order, and
/// no device is tried.
pub proof fn lemma_compositor_targets_win(targets: Seq<DisplayView>)
    requires
        targets.len() > 0,
    ensures
        EnumerationView::start().advanced(ProbeOutcomeView::Targets(targets))
            == EnumerationView::Found(targets),
        EnumerationView::start().advanced(ProbeOutcomeView::Targets(targets)).pending() is None,
{
}

/// When all three methods fail, the search fails with what the last one
/// failed with, after having tried them in order.
pub proof fn lemma_all_methods_failed(first: Seq<char>, second: Seq<char>, third: Seq<char>)
    ensures
        ({
            let after_first = EnumerationView::start().advanced(ProbeOutcomeView::Failed(first));
            let after_second = after_first.advanced(ProbeOutcomeView::Failed(second));
            let after_third = after_second.advanced(ProbeOutcomeView::Failed(third));
            &&& after_first.pending() == Some(Probe::ModeSetting)
            &&& after_second.pending() == Some(Probe::Framebuffer)
            &&& after_third == EnumerationView::Failed(
                CaptureErrorView::NoCaptureMethod { last: third },
            )
        }),
{
}

} // verus!
