use crate::error::CaptureError;
use crate::geometry::{
    area_plan, area_region, display_plan, map_area, map_display, CapturePlan, DeviceRegion,
    DisplayInfo,
};
use crate::pixels::{image_view, PixelBuffer, PixelBufferView, PixelLayout};
use vstd::prelude::*;

verus! {

/// The formats in which the windowing system hands out an image.
#[derive(Clone, Copy, Debug, PartialEq, Eq, Structural)]
pub enum ImageFormat {
    XyBitmap,
    XyPixmap,
    ZPixmap,
}

/// Every plane of the drawable.
pub const ALL_PLANES: u32 = 0xffff_ffff;

/// The image request of the core protocol, whose fields are 16 bits wide.
#[derive(Clone, Copy, Debug, PartialEq, Eq, Structural)]
pub struct ImageRequest {
    pub format: ImageFormat,
    pub x: i16,
    pub y: i16,
    pub width: u16,
    pub height: u16,
    pub plane_mask: u32,
}

/// Where a capture stands.
#[derive(Clone, Copy, Debug, PartialEq, Eq, Structural)]
pub enum XorgStage {
    /// The connection to the display is being made.
    Connecting,
    /// The request is on its way to the root window of the screen at
    /// `screen`, or its reply is.
    Fetching { screen: usize, request: ImageRequest },
    /// The capture has its result.
    Finished,
}

/// The outcome of an action, as the caller saw it.
#[derive(Debug)]
pub enum XorgEvent {
    /// The connection stands: the number of screens of its setup, and the
    /// index of the screen it prefers.
    Connected { screen_count: usize, default_screen: i32 },
    /// The connection could not be made.
    ConnectionFailed,
    /// The data of the reply, if the round trip succeeded.
    ImageReceived(Option<Vec<u8>>),
}

/// What the caller is to do next.
#[derive(Clone, Copy, Debug, PartialEq, Eq, Structural)]
pub enum XorgAction {
    /// Connect to the display that the environment names.
    Connect,
    /// Send the request against the root window of the screen at `screen`,
    /// and wait for the reply.
    GetImage { screen: usize, request: ImageRequest },
    /// Nothing more: the capture has its result.
    Finish,
}

/// A capture on an X11 session: one connection, one request, one reply.
#[derive(Debug)]
pub struct XorgCapture {
    plan: CapturePlan,
    stage: XorgStage,
    outcome: Option<Result<Vec<u8>, CaptureError>>,
}

/// An `XorgCapture` as its contracts see it.
pub struct XorgCaptureView {
    /// What the capture fetches and what it reports.
    pub plan: CapturePlan,
    /// The stage that the capture is in.
    pub stage: XorgStage,
    /// The result, once it is decided.
    pub outcome: Option<Result<Seq<u8>, CaptureError>>,
}

/// The bytes of an outcome.
pub open spec fn reply_view(outcome: Option<Result<Vec<u8>, CaptureError>>) -> Option<
    Result<Seq<u8>, CaptureError>,
> {
    match outcome {
        Some(Ok(bytes)) => Some(Ok(bytes@)),
        Some(Err(e)) => Some(Err(e)),
        None => None,
    }
}

impl View for XorgCapture {
    type V = XorgCaptureView;

    closed spec fn view(&self) -> XorgCaptureView {
        XorgCaptureView {
            plan: self.plan,
            stage: self.stage,
            outcome: reply_view(self.outcome),
        }
    }
}

/// Whether a request can name `source`: each of its numbers has to fit the
/// 16 bits of its field.
pub open spec fn fits_request(source: DeviceRegion) -> bool {
    &&& i16::MIN <= source.x <= i16::MAX
    &&& i16::MIN <= source.y <= i16::MAX
    &&& source.width <= u16::MAX
    &&& source.height <= u16::MAX
}

/// The request that covers `source`, if there is one: all planes, in the
/// packed format, with the numbers of `source` as they are. A rectangle that
/// does not fit the request's fields has no request.
pub open spec fn image_request(source: DeviceRegion) -> Option<ImageRequest> {
    if fits_request(source) {
        Some(
            ImageRequest {
                format: ImageFormat::ZPixmap,
                x: source.x as i16,
                y: source.y as i16,
                width: source.width as u16,
                height: source.height as u16,
                plane_mask: ALL_PLANES,
            },
        )
    } else {
        None
    }
}

/// A request covers its rectangle: number for number, nothing is cut or
/// wrapped on the way into the request's fields.
pub proof fn lemma_request_covers_source(source: DeviceRegion)
    ensures
        image_request(source) is Some <==> fits_request(source),
        image_request(source) matches Some(request) ==> {
            &&& request.x as int == source.x as int
            &&& request.y as int == source.y as int
            &&& request.width as int == source.width as int
            &&& request.height as int == source.height as int
            &&& request.format == ImageFormat::ZPixmap
            &&& request.plane_mask == ALL_PLANES
        },
{
}

/// Makes the request that covers `source`, if there is one.
pub fn request_for(source: DeviceRegion) -> (request: Option<ImageRequest>)
    ensures
        request == image_request(source),
{
    if source.x < -0x8000 || source.x > 0x7fff || source.y < -0x8000 || source.y > 0x7fff
        || source.width > 0xffff || source.height > 0xffff {
        None
    } else {
        Some(
            ImageRequest {
                format: ImageFormat::ZPixmap,
                x: source.x as i16,
                y: source.y as i16,
                width: source.width as u16,
                height: source.height as u16,
                plane_mask: ALL_PLANES,
            },
        )
    }
}

impl XorgCaptureView {
    /// The capture of `plan` as it starts.
    pub open spec fn initial(plan: CapturePlan) -> XorgCaptureView {
        XorgCaptureView { plan, stage: XorgStage::Connecting, outcome: None }
    }

    /// The capture, ended with `outcome`.
    pub open spec fn finished(self, outcome: Result<Seq<u8>, CaptureError>) -> XorgCaptureView {
        XorgCaptureView { stage: XorgStage::Finished, outcome: Some(outcome), ..self }
    }

    /// The capture after `event`. An event that does not answer the pending
    /// action counts as that action's failure. A source that no request can
    /// name is a failure of the protocol: nothing is sent for it.
    pub open spec fn after(self, event: XorgEvent) -> XorgCaptureView {
        match self.stage {
            XorgStage::Connecting => match event {
                XorgEvent::Connected { screen_count, default_screen } => if 0 <= default_screen
                    < screen_count {
                    match image_request(self.plan.source) {
                        Some(request) => XorgCaptureView {
                            stage: XorgStage::Fetching {
                                screen: default_screen as usize,
                                request,
                            },
                            ..self
                        },
                        None => self.finished(Err(CaptureError::ProtocolError)),
                    }
                } else {
                    self.finished(Err(CaptureError::ScreenNotFound))
                },
                _ => self.finished(Err(CaptureError::ProtocolError)),
            },
            XorgStage::Fetching { .. } => match event {
                XorgEvent::ImageReceived(Some(bytes)) => self.finished(Ok(bytes@)),
                _ => self.finished(Err(CaptureError::ProtocolError)),
            },
            XorgStage::Finished => self,
        }
    }

    /// The action that the capture waits for.
    pub open spec fn action(self) -> XorgAction {
        match self.stage {
            XorgStage::Connecting => XorgAction::Connect,
            XorgStage::Fetching { screen, request } => XorgAction::GetImage { screen, request },
            XorgStage::Finished => XorgAction::Finish,
        }
    }

    /// The image that the capture yields, once it has finished: the data of
    /// the reply, in the order blue, green, red, alpha, one row of the source
    /// after another, under the width and height of the plan.
    pub open spec fn image(self) -> Option<Result<PixelBufferView, CaptureError>> {
        if self.stage == XorgStage::Finished {
            match self.outcome {
                Some(Ok(bytes)) => Some(
                    Ok(
                        PixelBufferView {
                            layout: PixelLayout::Bgra,
                            width: self.plan.width,
                            height: self.plan.height,
                            stride: (self.plan.source.width * 4) as u64,
                            bytes,
                        },
                    ),
                ),
                Some(Err(e)) => Some(Err(e)),
                None => None,
            }
        } else {
            None
        }
    }
}

/// An area is read in device pixels and reported in logical units. The one
/// request of the capture of an area covers the area moved by the display's
/// origin and scaled, each number rounded toward zero; where that rectangle
/// does not fit a request, none is made and the capture fails. The image, if
/// there is one, has the width and height that were asked for, unscaled, and
/// rows as long as those of the source.
pub proof fn lemma_area_is_read_scaled_and_reported_unscaled(
    display: DisplayInfo,
    x: i32,
    y: i32,
    width: u32,
    height: u32,
    first: XorgEvent,
    second: XorgEvent,
)
    ensures
        ({
            let start = XorgCaptureView::initial(area_plan(display, x, y, width, height));
            let source = area_region(display, x as int, y as int, width as int, height as int);
            let fetching = start.after(first);
            let end = fetching.after(second);
            &&& fetching.action() matches XorgAction::GetImage { request, .. } ==> {
                &&& fits_request(source)
                &&& request.x as int == source.x as int
                &&& request.y as int == source.y as int
                &&& request.width as int == source.width as int
                &&& request.height as int == source.height as int
                &&& request.format == ImageFormat::ZPixmap
                &&& request.plane_mask == ALL_PLANES
            }
            &&& !fits_request(source) ==> {
                &&& fetching.stage == XorgStage::Finished
                &&& fetching.outcome matches Some(Err(_))
                &&& end == fetching
            }
            &&& end.image() matches Some(Ok(image)) ==> {
                &&& fits_request(source)
                &&& image.width == width
                &&& image.height == height
                &&& image.stride == source.width * 4
            }
        }),
{
}

fn capture(plan: CapturePlan) -> (capture: XorgCapture)
    ensures
        capture@ == XorgCaptureView::initial(plan),
{
    XorgCapture { plan, stage: XorgStage::Connecting, outcome: None }
}

/// Starts the capture of a whole display. The source is the display's
/// rectangle in device pixels, and the image reports the size of the source.
pub fn xorg_capture_screen(display_info: &DisplayInfo) -> (capture: XorgCapture)
    ensures
        capture@ == XorgCaptureView::initial(display_plan(*display_info)),
{
    capture(map_display(display_info))
}

/// Starts the capture of the area of `width` by `height` logical units at
/// `(x, y)` from the display's origin. The source is the area moved into the
/// display's place and scaled to device pixels; the image reports `width`
/// and `height` as they were given.
pub fn xorg_capture_screen_area(
    display_info: &DisplayInfo,
    x: i32,
    y: i32,
    width: u32,
    height: u32,
) -> (capture: XorgCapture)
    ensures
        capture@ == XorgCaptureView::initial(area_plan(*display_info, x, y, width, height)),
{
    capture(map_area(display_info, x, y, width, height))
}

impl XorgCapture {
    /// What the capture fetches and what it reports.
    pub fn plan(&self) -> (plan: CapturePlan)
        ensures
            plan == self@.plan,
    {
        self.plan
    }

    /// The action to perform next.
    pub fn action(&self) -> (action: XorgAction)
        ensures
            action == self@.action(),
    {
        match self.stage {
            XorgStage::Connecting => XorgAction::Connect,
            XorgStage::Fetching { screen, request } => XorgAction::GetImage { screen, request },
            XorgStage::Finished => XorgAction::Finish,
        }
    }

    /// Whether the capture has its result.
    pub fn is_finished(&self) -> (done: bool)
        ensures
            done == (self@.stage == XorgStage::Finished),
    {
        match self.stage {
            XorgStage::Finished => true,
            _ => false,
        }
    }

    fn finish(&mut self, outcome: Result<Vec<u8>, CaptureError>)
        ensures
            final(self)@ == old(self)@.finished(
                match outcome {
                    Ok(bytes) => Ok(bytes@),
                    Err(e) => Err(e),
                },
            ),
    {
        self.stage = XorgStage::Finished;
        self.outcome = Some(outcome);
    }

    /// Takes the outcome of the action that `action` named.
    pub fn handle(&mut self, event: XorgEvent)
        ensures
            final(self)@ == old(self)@.after(event),
    {
        match self.stage {
            XorgStage::Connecting => match event {
                XorgEvent::Connected { screen_count, default_screen } => {
                    if 0 <= default_screen && (default_screen as u64) < screen_count as u64 {
                        match request_for(self.plan.source) {
                            Some(request) => {
                                self.stage = XorgStage::Fetching {
                                    screen: default_screen as usize,
                                    request,
                                };
                            },
                            None => self.finish(Err(CaptureError::ProtocolError)),
                        }
                    } else {
                        self.finish(Err(CaptureError::ScreenNotFound));
                    }
                },
                _ => self.finish(Err(CaptureError::ProtocolError)),
            },
            XorgStage::Fetching { .. } => match event {
                XorgEvent::ImageReceived(Some(bytes)) => self.finish(Ok(bytes)),
                _ => self.finish(Err(CaptureError::ProtocolError)),
            },
            XorgStage::Finished => {},
        }
    }

    /// The image of a capture that has finished.
    pub fn into_image(self) -> (image: Option<Result<PixelBuffer, CaptureError>>)
        ensures
            image_view(image) == self@.image(),
    {
        if self.is_finished() {
            match self.outcome {
                Some(Ok(bytes)) => Some(
                    Ok(
                        PixelBuffer {
                            layout: PixelLayout::Bgra,
                            width: self.plan.width,
                            height: self.plan.height,
                            stride: self.plan.source.width as u64 * 4,
                            bytes,
                        },
                    ),
                ),
                Some(Err(e)) => Some(Err(e)),
                None => None,
            }
        } else {
            None
        }
    }
}

} // verus!
