use crate::error::CaptureError;
use crate::geometry::{
    area_plan, display_plan, map_area, map_display, saturated_i32, saturated_u32, CapturePlan,
    DisplayInfo,
};
use crate::pixels::{image_view, PixelBuffer, PixelBufferView, PixelLayout};
use crate::wayland_screenshot::{
    lemma_rectangle_is_kept, wayland_screenshot, Action, Event, ScreenshotView, Stage,
    WaylandScreenshot,
};
use vstd::prelude::*;

verus! {

/// A length as the bus carries it: the nearest `i32`.
pub open spec fn bus_length(length: u32) -> i32 {
    if length > i32::MAX {
        i32::MAX
    } else {
        length as i32
    }
}

fn to_bus_length(length: u32) -> (n: i32)
    ensures
        n == bus_length(length),
{
    if length > i32::MAX as u32 {
        i32::MAX
    } else {
        length as i32
    }
}

/// A capture on a Wayland session, from a display to an image: the plan that
/// the display's scale gives, and the screenshot of the plan's source.
#[derive(Debug)]
pub struct WaylandCapture {
    plan: CapturePlan,
    screenshot: WaylandScreenshot,
}

/// A `WaylandCapture` as its contracts see it.
pub struct WaylandCaptureView {
    pub plan: CapturePlan,
    pub screenshot: ScreenshotView,
}

impl View for WaylandCapture {
    type V = WaylandCaptureView;

    closed spec fn view(&self) -> WaylandCaptureView {
        WaylandCaptureView { plan: self.plan, screenshot: self.screenshot@ }
    }
}

impl WaylandCaptureView {
    /// The capture of `plan` as it starts.
    pub open spec fn initial(plan: CapturePlan) -> WaylandCaptureView {
        WaylandCaptureView {
            plan,
            screenshot: ScreenshotView::initial(
                plan.source.x,
                plan.source.y,
                bus_length(plan.source.width),
                bus_length(plan.source.height),
            ),
        }
    }

    /// The image that the capture yields, once it has finished: the bytes of
    /// the screenshot under the width and height of the plan.
    pub open spec fn image(self) -> Option<Result<PixelBufferView, CaptureError>> {
        if self.screenshot.stage == Stage::Finished {
            match self.screenshot.outcome {
                Some(Ok(bytes)) => Some(
                    Ok(
                        PixelBufferView {
                            layout: PixelLayout::Rgba,
                            width: self.plan.width,
                            height: self.plan.height,
                            stride: (self.plan.width * 4) as u64,
                            bytes,
                        },
                    ),
                ),
                Some(Err(e)) => Some(Err(e)),
                None => None,
            }
        } else {
            None
        }
    }
}

fn start(plan: CapturePlan) -> (capture: WaylandCapture)
    ensures
        capture@ == WaylandCaptureView::initial(plan),
{
    let screenshot = wayland_screenshot(
        plan.source.x,
        plan.source.y,
        to_bus_length(plan.source.width),
        to_bus_length(plan.source.height),
    );
    WaylandCapture { plan, screenshot }
}

/// Starts the capture of a whole display. The source is the display's
/// rectangle in device pixels, and the image reports the size of the source.
pub fn wayland_capture_screen(display_info: &DisplayInfo) -> (capture: WaylandCapture)
    ensures
        capture@ == WaylandCaptureView::initial(display_plan(*display_info)),
{
    start(map_display(display_info))
}

/// Starts the capture of the area of `width` by `height` logical units at
/// `(x, y)` from the display's origin. The source is the area moved into the
/// display's place and scaled to device pixels; the image reports `width`
/// and `height` as they were given.
pub fn wayland_capture_screen_area(
    display_info: &DisplayInfo,
    x: i32,
    y: i32,
    width: u32,
    height: u32,
) -> (capture: WaylandCapture)
    ensures
        capture@ == WaylandCaptureView::initial(area_plan(*display_info, x, y, width, height)),
{
    start(map_area(display_info, x, y, width, height))
}

/// An area is read in device pixels and reported in logical units. At any
/// point of the capture of an area, the rectangle that is asked of the shell
/// and cut from the portal's file is the area moved by the display's origin
/// and scaled, each number rounded toward zero, and the image, if there is
/// one, has the width and height that were asked for, unscaled.
pub proof fn lemma_area_is_read_scaled_and_reported_unscaled(
    display: DisplayInfo,
    x: i32,
    y: i32,
    width: u32,
    height: u32,
    events: Seq<Event>,
)
    ensures
        ({
            let start = WaylandCaptureView::initial(area_plan(display, x, y, width, height));
            let end = WaylandCaptureView {
                plan: start.plan,
                screenshot: start.screenshot.after_all(events),
            };
            let scale = display.scale_factor;
            &&& end.screenshot.x == saturated_i32(scale.scaled(x + display.x))
            &&& end.screenshot.y == saturated_i32(scale.scaled(y + display.y))
            &&& end.screenshot.width == bus_length(saturated_u32(scale.scaled(width as int)))
            &&& end.screenshot.height == bus_length(saturated_u32(scale.scaled(height as int)))
            &&& end.image() matches Some(Ok(image)) ==> image.width == width && image.height
                == height
        }),
{
    let start = WaylandCaptureView::initial(area_plan(display, x, y, width, height));
    lemma_rectangle_is_kept(start.screenshot, events);
}

impl WaylandCapture {
    /// What the capture fetches and what it reports.
    pub fn plan(&self) -> (plan: CapturePlan)
        ensures
            plan == self@.plan,
    {
        self.plan
    }

    /// The action to perform next.
    pub fn action(&self) -> (action: Action)
        ensures
            action@ == self@.screenshot.action(),
    {
        self.screenshot.action()
    }

    /// Why the shell's service was given up, if it was.
    pub fn discarded_error(&self) -> (cause: Option<CaptureError>)
        ensures
            cause == self@.screenshot.discarded,
    {
        self.screenshot.discarded_error()
    }

    /// Whether the capture has its result.
    pub fn is_finished(&self) -> (done: bool)
        ensures
            done == (self@.screenshot.stage == Stage::Finished),
    {
        self.screenshot.is_finished()
    }

    /// Takes the outcome of the action that `action` named.
    pub fn handle(&mut self, event: Event)
        ensures
            final(self)@.plan == old(self)@.plan,
            final(self)@.screenshot == old(self)@.screenshot.after(event),
    {
        self.screenshot.handle(event);
    }

    /// The image of a capture that has finished.
    pub fn into_image(self) -> (image: Option<Result<PixelBuffer, CaptureError>>)
        ensures
            image_view(image) == self@.image(),
    {
        let plan = self.plan;
        match self.screenshot.into_result() {
            Some(Ok(bytes)) => Some(
                Ok(
                    PixelBuffer {
                        layout: PixelLayout::Rgba,
                        width: plan.width,
                        height: plan.height,
                        stride: plan.width as u64 * 4,
                        bytes,
                    },
                ),
            ),
            Some(Err(e)) => Some(Err(e)),
            None => None,
        }
    }
}

} // verus!
