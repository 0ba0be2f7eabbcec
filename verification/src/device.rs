//! The device context.
//!
//! Adapter, device and queue are negotiated once, at startup. This module
//! states what is asked for and decides what the answers amount to; the
//! caller puts the questions to the graphics device.

use vstd::prelude::*;

verus! {

/// Which kind of adapter is preferred.
#[derive(Clone, Copy, Debug, PartialEq, Eq, Structural)]
pub enum PowerPreference {
    NoPreference,
    LowPower,
    HighPerformance,
}

/// What is asked of the adapter that draws to the surface `S`.
#[derive(Debug)]
pub struct AdapterRequest<'a, S> {
    pub power_preference: PowerPreference,
    /// Whether a software adapter is forced.
    pub force_fallback_adapter: bool,
    /// The surface that the adapter must be able to present to.
    pub compatible_surface: Option<&'a S>,
}

/// Which optional capabilities of the adapter the device is to have.
#[derive(Clone, Copy, Debug, PartialEq, Eq, Structural)]
pub enum FeatureRequest {
    /// None of them.
    Nothing,
    /// All that the adapter offers.
    AllSupported,
}

/// Which set of resource limits the device is to have.
#[derive(Clone, Copy, Debug, PartialEq, Eq, Structural)]
pub enum LimitsProfile {
    /// The limits that every target meets, the browser included.
    DownlevelWebGl2,
    Downlevel,
    Standard,
}

/// What is asked of the device.
#[derive(Clone, Copy, Debug, PartialEq, Eq, Structural)]
pub struct DeviceRequest {
    pub features: FeatureRequest,
    pub limits: LimitsProfile,
}

/// Why the device context could not be set up. Either is final: nothing is
/// tried again.
#[derive(Clone, Copy, Debug, PartialEq, Eq, Structural)]
pub enum InitError {
    /// No adapter can present to the surface.
    NoAdapterFound,
    /// The chosen adapter granted no device.
    NoDeviceFound,
}

/// The request for a low-power adapter that can present to `surface`, never a
/// software one.
pub fn adapter_request<'a, S>(surface: &'a S) -> (request: AdapterRequest<'a, S>)
    ensures
        request.power_preference == PowerPreference::LowPower,
        !request.force_fallback_adapter,
        request.compatible_surface == Some(surface),
{
    AdapterRequest {
        power_preference: PowerPreference::LowPower,
        force_fallback_adapter: false,
        compatible_surface: Some(surface),
    }
}

/// The request for a device with no optional capability and the most
/// conservative limits.
pub fn device_request() -> (request: DeviceRequest)
    ensures
        request == (DeviceRequest {
            features: FeatureRequest::Nothing,
            limits: LimitsProfile::DownlevelWebGl2,
        }),
{
    DeviceRequest { features: FeatureRequest::Nothing, limits: LimitsProfile::DownlevelWebGl2 }
}

/// What the negotiation amounts to, given the adapter that was found, if any,
/// and the device and queue that it granted, if any.
pub open spec fn negotiated<A, D, Q>(found: Option<A>, granted: Option<(D, Q)>) -> Result<
    DeviceHandles<A, D, Q>,
    InitError,
> {
    match found {
        None => Err(InitError::NoAdapterFound),
        Some(adapter) => match granted {
            None => Err(InitError::NoDeviceFound),
            Some(pair) => Ok(DeviceHandles { adapter, device: pair.0, queue: pair.1 }),
        },
    }
}

/// The adapter that the negotiation settled on, before a device is asked of
/// it.
#[derive(Debug)]
pub struct SelectedAdapter<A> {
    adapter: A,
}

impl<A> View for SelectedAdapter<A> {
    type V = A;

    closed spec fn view(&self) -> A {
        self.adapter
    }
}

impl<A> SelectedAdapter<A> {
    /// Takes in the answer to the adapter request. Without an adapter the
    /// negotiation has failed.
    pub fn select(found: Option<A>) -> (result: Result<SelectedAdapter<A>, InitError>)
        ensures
            match result {
                Ok(selected) => found == Some(selected@),
                Err(e) => found is None && e == InitError::NoAdapterFound,
            },
    {
        match found {
            Some(adapter) => Ok(SelectedAdapter { adapter }),
            None => Err(InitError::NoAdapterFound),
        }
    }

    /// The adapter, to ask a device of it.
    pub fn adapter(&self) -> (adapter: &A)
        ensures
            *adapter == self@,
    {
        &self.adapter
    }

    /// Takes in the answer to the device request and completes the context.
    /// Without a device the negotiation has failed, and the adapter is
    /// released.
    pub fn open<D, Q>(self, granted: Option<(D, Q)>) -> (result: Result<
        DeviceContext<A, D, Q>,
        InitError,
    >)
        ensures
            match result {
                Ok(context) => Ok::<DeviceHandles<A, D, Q>, InitError>(context@) == negotiated(
                    Some(self@),
                    granted,
                ),
                Err(e) => granted is None && e == InitError::NoDeviceFound,
            },
    {
        match granted {
            Some((device, queue)) => Ok(DeviceContext { adapter: self.adapter, device, queue }),
            None => Err(InitError::NoDeviceFound),
        }
    }
}

/// What a device context holds.
pub struct DeviceHandles<A, D, Q> {
    pub adapter: A,
    pub device: D,
    pub queue: Q,
}

/// The negotiated adapter, device and queue. A context exists only complete,
/// and nothing changes it once it exists: it lends its parts and never gives
/// them up.
#[derive(Debug)]
pub struct DeviceContext<A, D, Q> {
    adapter: A,
    device: D,
    queue: Q,
}

impl<A, D, Q> View for DeviceContext<A, D, Q> {
    type V = DeviceHandles<A, D, Q>;

    closed spec fn view(&self) -> DeviceHandles<A, D, Q> {
        DeviceHandles { adapter: self.adapter, device: self.device, queue: self.queue }
    }
}

impl<A, D, Q> DeviceContext<A, D, Q> {
    /// Sets up the context from the answers to the two requests.
    ///
    /// Fails with `NoAdapterFound` where no adapter was found, whatever else
    /// was handed in, and with `NoDeviceFound` where an adapter was found and
    /// granted no device.
    pub fn initialize(found: Option<A>, granted: Option<(D, Q)>) -> (result: Result<
        DeviceContext<A, D, Q>,
        InitError,
    >)
        ensures
            match result {
                Ok(context) => Ok::<DeviceHandles<A, D, Q>, InitError>(context@) == negotiated(
                    found,
                    granted,
                ),
                Err(e) => Err::<DeviceHandles<A, D, Q>, InitError>(e) == negotiated(found, granted),
            },
            result is Ok <==> found is Some && granted is Some,
    {
        match SelectedAdapter::select(found) {
            Err(e) => Err(e),
            Ok(selected) => selected.open(granted),
        }
    }

    pub fn adapter(&self) -> (adapter: &A)
        ensures
            *adapter == self@.adapter,
    {
        &self.adapter
    }

    pub fn device(&self) -> (device: &D)
        ensures
            *device == self@.device,
    {
        &self.device
    }

    pub fn queue(&self) -> (queue: &Q)
        ensures
            *queue == self@.queue,
    {
        &self.queue
    }
}

impl InitError {
    /// The line that is written to the error stream before the program exits.
    pub fn message(&self) -> (text: &'static str)
        ensures
            text@ == match *self {
                InitError::NoAdapterFound => "Found no appropiate adapter"@,
                InitError::NoDeviceFound => "Found no appropiate device"@,
            },
    {
        match self {
            InitError::NoAdapterFound => "Found no appropiate adapter",
            InitError::NoDeviceFound => "Found no appropiate device",
        }
    }
}

/// A context is never seen half made: the negotiation yields one exactly when
/// both an adapter and a device with its queue were obtained, and then it
/// holds just those.
pub proof fn law_context_is_complete<A, D, Q>(found: Option<A>, granted: Option<(D, Q)>)
    ensures
        negotiated(found, granted) is Ok <==> found is Some && granted is Some,
        negotiated(found, granted) matches Ok(h) ==> found == Some(h.adapter) && granted == Some(
            (h.device, h.queue),
        ),
        found is None ==> negotiated(found, granted) == Err::<DeviceHandles<A, D, Q>, InitError>(
            InitError::NoAdapterFound,
        ),
        found is Some && granted is None ==> negotiated(found, granted) == Err::<
            DeviceHandles<A, D, Q>,
            InitError,
        >(InitError::NoDeviceFound),
{
}

} // verus!
