//! The notification as its caller describes it.

use vstd::prelude::*;
use crate::icon::PIXEL_SIZE;
use crate::registry::{after_show, placements, stack_fits, Placement, Registry, RegistryView};
use crate::timeout::Timeout;

verus! {

/// Whether a buffer of `len` bytes holds exactly `width * height` pixels of
/// four bytes each.
pub open spec fn icon_fits(len: nat, width: u32, height: u32) -> bool {
    len == width * height * 4
}

/// A `Notification` as plain values.
pub struct NotificationView {
    pub icon: Option<Seq<u8>>,
    pub icon_width: u32,
    pub icon_height: u32,
    pub appname: Seq<char>,
    pub summary: Seq<char>,
    pub body: Seq<char>,
    pub timeout: Timeout,
}

impl NotificationView {
    /// The icon, where there is one, has exactly the pixels of its size.
    pub open spec fn wf(self) -> bool {
        self.icon matches Some(rgba) ==> icon_fits(rgba.len(), self.icon_width, self.icon_height)
    }
}

/// Describes the notification.
#[derive(Debug)]
pub struct Notification {
    icon: Option<Vec<u8>>,
    icon_width: u32,
    icon_height: u32,
    appname: String,
    summary: String,
    body: String,
    timeout: Timeout,
}

impl View for Notification {
    type V = NotificationView;

    closed spec fn view(&self) -> NotificationView {
        NotificationView {
            icon: match self.icon {
                Some(rgba) => Some(rgba@),
                None => None,
            },
            icon_width: self.icon_width,
            icon_height: self.icon_height,
            appname: self.appname@,
            summary: self.summary@,
            body: self.body@,
            timeout: self.timeout,
        }
    }
}

/// What follows the creation of a notification's window: where every
/// notification on screen goes now, and after how many milliseconds this one
/// is closed, if it is closed by a timer at all.
#[derive(Debug, PartialEq, Eq)]
pub struct Shown {
    pub moves: Vec<Placement>,
    pub close_after: Option<u64>,
}

/// A `Shown` as plain values.
pub struct ShownView {
    pub moves: Seq<Placement>,
    pub close_after: Option<u64>,
}

impl View for Shown {
    type V = ShownView;

    open spec fn view(&self) -> ShownView {
        ShownView { moves: self.moves@, close_after: self.close_after }
    }
}

/// Why a buffer cannot be the icon of a notification.
#[derive(Debug, Copy, Clone, PartialEq, Eq, Structural)]
pub enum IconError {
    /// The length of the buffer is not divisible by 4.
    LengthNotDivisibleBy4,
    /// `width * height` is not the number of pixels in the buffer.
    SizeMismatch,
}

/// What the check of an icon answers for a buffer of `len` bytes and the given size:
/// the divisibility of the length is looked at first.
pub open spec fn icon_check(len: nat, width: u32, height: u32) -> Result<(), IconError> {
    if len % 4 != 0 {
        Err(IconError::LengthNotDivisibleBy4)
    } else if width * height != len / 4 {
        Err(IconError::SizeMismatch)
    } else {
        Ok(())
    }
}

/// A buffer passes the check exactly if it holds `width * height` pixels of
/// four bytes each.
pub proof fn lemma_icon_check(len: nat, width: u32, height: u32)
    ensures
        icon_check(len, width, height).is_ok() <==> icon_fits(len, width, height),
{
}

impl IconError {
    /// The error in words.
    pub fn message(self) -> (text: &'static str)
        ensures
            text@ == (match self {
                IconError::LengthNotDivisibleBy4 => "The length of `rgba` is not divisible by 4"@,
                IconError::SizeMismatch => "`width * height` is not equal `rgba.len() / 4`"@,
            }),
    {
        match self {
            IconError::LengthNotDivisibleBy4 => "The length of `rgba` is not divisible by 4",
            IconError::SizeMismatch => "`width * height` is not equal `rgba.len() / 4`",
        }
    }
}

/// Checks whether `rgba` can be the icon of a notification with the given
/// size: its length must be divisible by 4, and `width * height` must be the
/// number of its pixels.
pub fn check_icon(rgba: &[u8], width: u32, height: u32) -> (outcome: Result<(), IconError>)
    ensures
        outcome == icon_check(rgba@.len(), width, height),
        outcome.is_ok() <==> icon_fits(rgba@.len(), width, height),
{
    if rgba.len() % PIXEL_SIZE != 0 {
        return Err(IconError::LengthNotDivisibleBy4);
    }
    let pixels: u64 = (rgba.len() / PIXEL_SIZE) as u64;
    assert(width * height <= 0xFFFF_FFFF * 0xFFFF_FFFF) by (nonlinear_arith)
        requires
            width <= 0xFFFF_FFFF,
            height <= 0xFFFF_FFFF,
    ;
    if pixels != (width as u64) * (height as u64) {
        return Err(IconError::SizeMismatch);
    }
    Ok(())
}

impl Clone for Notification {
    fn clone(&self) -> (copy: Notification)
        ensures
            copy@ == self@,
    {
        proof {
            use_type_invariant(self);
        }
        let icon = match &self.icon {
            Some(rgba) => Some(rgba.clone()),
            None => None,
        };
        Notification {
            icon,
            icon_width: self.icon_width,
            icon_height: self.icon_height,
            appname: self.appname.clone(),
            summary: self.summary.clone(),
            body: self.body.clone(),
            timeout: self.timeout,
        }
    }
}

impl Notification {
    #[verifier::type_invariant]
    spec fn inv(&self) -> bool {
        self@.wf()
    }

    /// Constructs a new notification for the application of the given name,
    /// which is the name of the running executable unless `appname` changes
    /// it. The other texts are empty, there is no icon, and the timeout is the
    /// default.
    pub fn new(appname: &str) -> (notification: Notification)
        ensures
            notification@ == (NotificationView {
                icon: None,
                icon_width: 32,
                icon_height: 32,
                appname: appname@,
                summary: Seq::empty(),
                body: Seq::empty(),
                timeout: Timeout::Default,
            }),
    {
        Notification {
            appname: appname.to_owned(),
            summary: String::new(),
            body: String::new(),
            icon: None,
            icon_height: 32,
            icon_width: 32,
            timeout: Timeout::Default,
        }
    }

    /// Overwrites the application name.
    pub fn appname(&mut self, appname: &str) -> (out: &mut Notification)
        ensures
            out@ == (NotificationView { appname: appname@, ..old(self)@ }),
            *final(self) == *final(out),
    {
        proof {
            use_type_invariant(&*self);
        }
        self.appname = appname.to_owned();
        self
    }

    /// Sets the summary, which is shown as the title.
    pub fn summary(&mut self, summary: &str) -> (out: &mut Notification)
        ensures
            out@ == (NotificationView { summary: summary@, ..old(self)@ }),
            *final(self) == *final(out),
    {
        proof {
            use_type_invariant(&*self);
        }
        self.summary = summary.to_owned();
        self
    }

    /// Sets the body: plain text, wrapped at word boundaries; markup is not
    /// interpreted.
    pub fn body(&mut self, body: &str) -> (out: &mut Notification)
        ensures
            out@ == (NotificationView { body: body@, ..old(self)@ }),
            *final(self) == *final(out),
    {
        proof {
            use_type_invariant(&*self);
        }
        self.body = body.to_owned();
        self
    }

    /// Sets the icon from 32 bit RGBA data. The length of `rgba` must be
    /// `width * height * 4`, which `check_icon` tests; `try_icon` sets the
    /// icon without this demand.
    pub fn icon(&mut self, rgba: Vec<u8>, width: u32, height: u32) -> (out: &mut Notification)
        requires
            icon_fits(rgba@.len(), width, height),
        ensures
            out@ == (NotificationView {
                icon: Some(rgba@),
                icon_width: width,
                icon_height: height,
                ..old(self)@
            }),
            *final(self) == *final(out),
    {
        proof {
            use_type_invariant(&*self);
        }
        self.icon = None;
        self.icon_width = width;
        self.icon_height = height;
        self.icon = Some(rgba);
        self
    }

    /// Sets the icon from 32 bit RGBA data if the buffer has the pixels of
    /// the given size, and says why not otherwise: a buffer that does not
    /// fit is refused here, and the notification stays as it was.
    pub fn try_icon(&mut self, rgba: Vec<u8>, width: u32, height: u32) -> (outcome: Result<
        (),
        IconError,
    >)
        ensures
            outcome == icon_check(rgba@.len(), width, height),
            outcome.is_ok() <==> icon_fits(rgba@.len(), width, height),
            outcome.is_err() ==> final(self)@ == old(self)@,
            outcome.is_ok() ==> final(self)@ == (NotificationView {
                icon: Some(rgba@),
                icon_width: width,
                icon_height: height,
                ..old(self)@
            }),
            final(self)@.wf(),
    {
        proof {
            use_type_invariant(&*self);
        }
        match check_icon(rgba.as_slice(), width, height) {
            Ok(()) => {
                self.icon(rgba, width, height);
                Ok(())
            },
            Err(error) => Err(error),
        }
    }

    /// Sets the timeout.
    pub fn timeout(&mut self, timeout: Timeout) -> (out: &mut Notification)
        ensures
            out@ == (NotificationView { timeout, ..old(self)@ }),
            *final(self) == *final(out),
    {
        proof {
            use_type_invariant(&*self);
        }
        self.timeout = timeout;
        self
    }

    /// Shows the notification, once the platform has answered the request
    /// for its window with the handle `hwnd`, which is 0 where it made none,
    /// and `last_error`, its error code. Without a window the error code is
    /// returned and nothing is registered. With one, the window is registered
    /// as the newest notification, every notification is given its place in
    /// the stack, and the closing timer is set according to the timeout. The
    /// notification itself stays as it is and can be shown again.
    pub fn show(&self, registry: &mut Registry, hwnd: isize, last_error: u32) -> (outcome: Result<
        Shown,
        u32,
    >)
        requires
            hwnd != 0 ==> stack_fits(old(registry)@.area, old(registry)@.windows.len() + 1),
        ensures
            hwnd == 0 ==> outcome == Err::<Shown, u32>(last_error) && final(registry)@ == old(
                registry,
            )@,
            hwnd != 0 ==> final(registry)@ == (RegistryView {
                area: old(registry)@.area,
                windows: after_show(old(registry)@.windows, hwnd),
            }) && outcome.is_ok() && outcome.unwrap()@ == (ShownView {
                moves: placements(final(registry)@.area, final(registry)@.windows),
                close_after: self@.timeout.delay(),
            }),
    {
        if hwnd == 0 {
            return Err(last_error);
        }
        let moves = registry.insert(hwnd);
        Ok(Shown { moves, close_after: self.timeout.closing_delay() })
    }

    /// The application name.
    pub fn app_name(&self) -> (appname: &str)
        ensures
            appname@ == self@.appname,
    {
        self.appname.as_str()
    }

    /// The summary.
    pub fn title(&self) -> (summary: &str)
        ensures
            summary@ == self@.summary,
    {
        self.summary.as_str()
    }

    /// The body.
    pub fn text(&self) -> (body: &str)
        ensures
            body@ == self@.body,
    {
        self.body.as_str()
    }

    /// The timeout.
    pub fn expiry(&self) -> (timeout: Timeout)
        ensures
            timeout == self@.timeout,
    {
        self.timeout
    }

    /// The icon's width and height in pixels.
    pub fn icon_size(&self) -> (size: (u32, u32))
        ensures
            size == (self@.icon_width, self@.icon_height),
    {
        (self.icon_width, self.icon_height)
    }

    /// The icon's pixels, where the notification has an icon. Their number
    /// is always that of the icon's size.
    pub fn icon_rgba(&self) -> (icon: Option<&Vec<u8>>)
        ensures
            self@.wf(),
            match icon {
                Some(rgba) => self@.icon == Some(rgba@),
                None => self@.icon.is_none(),
            },
    {
        proof {
            use_type_invariant(self);
        }
        match &self.icon {
            Some(rgba) => Some(rgba),
            None => None,
        }
    }
}

} // verus!
