use vstd::prelude::*;

use crate::playback::PlaybackEvent;

verus! {

/// A request from the user interface about the secondary window.
#[derive(Clone, Copy, Debug, PartialEq, Eq, Structural)]
pub enum PipRequest {
    Show,
    Hide,
    Toggle,
}

/// Why a request about the secondary window was refused.
#[derive(Clone, Copy, Debug, PartialEq, Eq, Structural)]
pub enum PipError {
    /// There is no secondary window.
    NotAvailable,
}

impl PipError {
    /// A description of the refusal for the caller.
    pub fn message(&self) -> (r: &'static str)
        ensures
            r@ == "PiP window not available"@,
    {
        "PiP window not available"
    }
}

/// What carrying out a request takes: showing (`true`) or hiding (`false`)
/// the secondary window, then queueing `switch` so that frames follow it.
#[derive(Debug)]
pub struct PipPlan {
    pub show: bool,
    pub switch: PlaybackEvent,
}

/// Whether a request ends with the secondary window shown.
pub open spec fn shows(request: PipRequest, visible: bool) -> bool {
    match request {
        PipRequest::Show => true,
        PipRequest::Hide => false,
        PipRequest::Toggle => !visible,
    }
}

/// Plans a show, hide or toggle of the secondary window. `available` tells
/// whether that window exists and `visible` whether it is shown now. Showing
/// it moves rendering to `pip`; hiding it moves rendering back to `primary`.
pub fn plan_pip(
    request: PipRequest,
    available: bool,
    visible: bool,
    primary: &String,
    pip: &String,
) -> (r: Result<PipPlan, PipError>)
    ensures
        match r {
            Ok(plan) => {
                &&& available
                &&& plan.show == shows(request, visible)
                &&& plan.switch is SwitchTarget
                &&& plan.switch->SwitchTarget_0@ == if plan.show {
                    pip@
                } else {
                    primary@
                }
            },
            Err(e) => !available && e == PipError::NotAvailable,
        },
{
    if !available {
        return Err(PipError::NotAvailable);
    }
    let show = match request {
        PipRequest::Show => true,
        PipRequest::Hide => false,
        PipRequest::Toggle => !visible,
    };
    let target = if show {
        pip.clone()
    } else {
        primary.clone()
    };
    Ok(PipPlan { show, switch: PlaybackEvent::SwitchTarget(target) })
}

} // verus!
