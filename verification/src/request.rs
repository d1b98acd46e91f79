//! What one invocation asks for.

use crate::brightness::Direction;
use crate::error::{exit_status_of, ErrorKind, ErrorKindView, EXIT_FAILURE};
use vstd::prelude::*;

verus! {

/// The options of a command line, as they were given.
#[derive(Debug, PartialEq, Eq)]
pub struct Args {
    /// Raise the brightness by this amount.
    pub increment: Option<u8>,
    /// Lower the brightness by this amount.
    pub decrement: Option<u8>,
    /// Set the brightness to this level.
    pub set: Option<u8>,
    /// List the devices.
    pub list_devs: bool,
    /// Report the brightness.
    pub get: bool,
    /// The name of the device to work on.
    pub device: Option<String>,
}

/// One operation on the backlight.
#[derive(Debug, PartialEq, Eq)]
pub enum Request {
    /// List the devices.
    ListDevices,
    /// Report the brightness of `device`.
    Get { device: String },
    /// Set the brightness of `device` to `value`.
    SetAbsolute { device: String, value: u8 },
    /// Move the brightness of `device` by `delta` in `direction`.
    Adjust { device: String, delta: u8, direction: Direction },
}

/// A [`Request`] with the device's name as a sequence of characters.
pub enum RequestView {
    ListDevices,
    Get { device: Seq<char> },
    SetAbsolute { device: Seq<char>, value: u8 },
    Adjust { device: Seq<char>, delta: u8, direction: Direction },
}

impl View for Request {
    type V = RequestView;

    open spec fn view(&self) -> RequestView {
        match *self {
            Request::ListDevices => RequestView::ListDevices,
            Request::Get { device } => RequestView::Get { device: device@ },
            Request::SetAbsolute { device, value } => RequestView::SetAbsolute {
                device: device@,
                value,
            },
            Request::Adjust { device, delta, direction } => RequestView::Adjust {
                device: device@,
                delta,
                direction,
            },
        }
    }
}

impl Clone for Args {
    fn clone(&self) -> (copy: Args)
        ensures
            copy == *self,
    {
        let device = match &self.device {
            Some(name) => Some(name.clone()),
            None => None,
        };
        Args {
            increment: self.increment,
            decrement: self.decrement,
            set: self.set,
            list_devs: self.list_devs,
            get: self.get,
            device,
        }
    }
}

impl Clone for Request {
    fn clone(&self) -> (copy: Request)
        ensures
            copy == *self,
    {
        match self {
            Request::ListDevices => Request::ListDevices,
            Request::Get { device } => Request::Get { device: device.clone() },
            Request::SetAbsolute { device, value } => Request::SetAbsolute {
                device: device.clone(),
                value: *value,
            },
            Request::Adjust { device, delta, direction } => Request::Adjust {
                device: device.clone(),
                delta: *delta,
                direction: *direction,
            },
        }
    }
}

impl Args {
    /// Whether the options select an operation that works on one device.
    pub open spec fn selects_device_operation(&self) -> bool {
        self.get || self.increment is Some || self.decrement is Some || self.set is Some
    }

    /// The operation on the device named `device` that the options select:
    /// the first that was given of `get`, `increment`, `decrement` and `set`.
    pub open spec fn device_operation(&self, device: Seq<char>) -> Option<RequestView> {
        if self.get {
            Some(RequestView::Get { device })
        } else if let Some(delta) = self.increment {
            Some(RequestView::Adjust { device, delta, direction: Direction::Up })
        } else if let Some(delta) = self.decrement {
            Some(RequestView::Adjust { device, delta, direction: Direction::Down })
        } else if let Some(value) = self.set {
            Some(RequestView::SetAbsolute { device, value })
        } else {
            None
        }
    }

    /// What the options ask for.
    ///
    /// Listing the devices comes before everything else and needs no device.
    /// Without any operation nothing is asked for. Every other operation fails
    /// as a usage error unless a device is named.
    pub open spec fn resolved(&self) -> Result<Option<RequestView>, ErrorKindView> {
        if self.list_devs {
            Ok(Some(RequestView::ListDevices))
        } else if !self.selects_device_operation() {
            Ok(None)
        } else {
            match self.device {
                None => Err(ErrorKindView::UsageError),
                Some(device) => Ok(self.device_operation(device@)),
            }
        }
    }
}

/// A resolution with its texts as sequences of characters.
pub open spec fn resolution_view(resolution: Result<Option<Request>, ErrorKind>) -> Result<
    Option<RequestView>,
    ErrorKindView,
> {
    match resolution {
        Ok(Some(request)) => Ok(Some(request@)),
        Ok(None) => Ok(None),
        Err(error) => Err(error@),
    }
}

/// The operation on `device` that the options select, if any.
fn select_device_operation(args: &Args, device: String) -> (request: Option<Request>)
    ensures
        match request {
            Some(request) => args.device_operation(device@) == Some(request@),
            None => args.device_operation(device@) is None,
        },
{
    if args.get {
        Some(Request::Get { device })
    } else if let Some(delta) = args.increment {
        Some(Request::Adjust { device, delta, direction: Direction::Up })
    } else if let Some(delta) = args.decrement {
        Some(Request::Adjust { device, delta, direction: Direction::Down })
    } else if let Some(value) = args.set {
        Some(Request::SetAbsolute { device, value })
    } else {
        None
    }
}

/// Finds the operation that the options ask for, `None` where they ask for
/// nothing.
///
/// No device is looked for, and no file touched: a missing device name is
/// found here, before anything else happens.
pub fn resolve(args: &Args) -> (resolution: Result<Option<Request>, ErrorKind>)
    ensures
        resolution_view(resolution) == args.resolved(),
{
    if args.list_devs {
        return Ok(Some(Request::ListDevices));
    }
    match &args.device {
        Some(name) => Ok(select_device_operation(args, name.clone())),
        None => {
            if args.get || args.increment.is_some() || args.decrement.is_some()
                || args.set.is_some() {
                Err(ErrorKind::UsageError)
            } else {
                Ok(None)
            }
        },
    }
}

/// Resolving fails exactly where an operation on a device is asked for and
/// no device is named. It then fails as a usage error, and the invocation
/// fails with it.
pub proof fn lemma_usage_error_iff_device_missing(args: Args)
    ensures
        args.resolved() is Err <==> !args.list_devs && args.selects_device_operation()
            && args.device is None,
        args.resolved() is Err ==> args.resolved() == Err::<Option<RequestView>, ErrorKindView>(
            ErrorKindView::UsageError,
        ) && exit_status_of(args.list_devs, true) == EXIT_FAILURE,
{
}

} // verus!
