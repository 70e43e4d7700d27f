use crate::errors::NetError;
use vstd::prelude::*;

verus! {

/// Health of a service, as observers see it.
#[derive(Clone, Copy, Debug, PartialEq, Eq, Structural)]
pub enum ServiceStatus {
    /// The service runs on a live stream.
    Connected,
    /// The stream was closed; a new connect may bring the service back.
    Disconnected,
    /// The service has failed for good.
    Failed,
}

/// State of a logical service.
pub enum ServiceState<S> {
    /// The service runs; its status is what observers read.
    Active(S, ServiceStatus),
    /// The service ran and its stream was closed.
    Inactive,
    /// No service: the connect cycle or the service itself failed.
    Failed(NetError),
}

/// What the owning loop notices of a running service.
#[derive(Clone, Copy, Debug, PartialEq, Eq, Structural)]
pub enum ServiceEvent {
    /// The stream was closed in good order.
    StreamClosed,
    /// The stream broke with this error.
    StreamFailed(NetError),
}

impl<S> ServiceState<S> {
    /// The status that observers read: that of an active service, of the
    /// other states none.
    pub open spec fn status(&self) -> Option<ServiceStatus> {
        match self {
            ServiceState::Active(_, status) => Some(*status),
            _ => None,
        }
    }

    /// The health that the state stands for: that of an active service as
    /// it was last reported, disconnected for an inactive one, failed for a
    /// failed one.
    pub open spec fn health(&self) -> ServiceStatus {
        match self {
            ServiceState::Active(_, status) => *status,
            ServiceState::Inactive => ServiceStatus::Disconnected,
            ServiceState::Failed(_) => ServiceStatus::Failed,
        }
    }

    /// The state after `event`: an active service becomes inactive when its
    /// stream is closed and failed when it breaks; the other states stay.
    pub open spec fn after(self, event: ServiceEvent) -> ServiceState<S> {
        match self {
            ServiceState::Active(_, _) => match event {
                ServiceEvent::StreamClosed => ServiceState::Inactive,
                ServiceEvent::StreamFailed(e) => ServiceState::Failed(e),
            },
            _ => self,
        }
    }

    /// The one state that a connect cycle ends in. `connection` is what the
    /// connection manager returned; `service` is what the service connector
    /// made of the stream, asked only where there was a stream.
    pub fn from_connect(connection: Result<(), NetError>, service: Option<S>) -> (state: Self)
        ensures
            state == (match connection {
                Err(e) => ServiceState::<S>::Failed(e),
                Ok(_) => match service {
                    Some(s) => ServiceState::Active(s, ServiceStatus::Connected),
                    None => ServiceState::Failed(NetError::ServiceConnectionFailed),
                },
            }),
    {
        match connection {
            Err(e) => ServiceState::Failed(e),
            Ok(_) => match service {
                Some(s) => ServiceState::Active(s, ServiceStatus::Connected),
                None => ServiceState::Failed(NetError::ServiceConnectionFailed),
            },
        }
    }

    /// The state after the owning loop noticed `event`.
    pub fn on_event(self, event: ServiceEvent) -> (state: Self)
        ensures
            state == self.after(event),
    {
        match self {
            ServiceState::Active(_, _) => match event {
                ServiceEvent::StreamClosed => ServiceState::Inactive,
                ServiceEvent::StreamFailed(e) => ServiceState::Failed(e),
            },
            other => other,
        }
    }

    /// The status of the service, if it is active.
    pub fn service_status(&self) -> (status: Option<ServiceStatus>)
        ensures
            status == self.status(),
    {
        match self {
            ServiceState::Active(_, status) => Some(*status),
            _ => None,
        }
    }

    /// The health of the service as observers see it.
    pub fn observed_status(&self) -> (status: ServiceStatus)
        ensures
            status == self.health(),
    {
        match self {
            ServiceState::Active(_, status) => *status,
            ServiceState::Inactive => ServiceStatus::Disconnected,
            ServiceState::Failed(_) => ServiceStatus::Failed,
        }
    }

    /// Whether the service is active.
    pub fn is_active(&self) -> (active: bool)
        ensures
            active == (self is Active),
    {
        match self {
            ServiceState::Active(_, _) => true,
            _ => false,
        }
    }
}

/// No event makes a service active: a service that is not active stays as
/// it is, and an active one leaves that state on every event. Only a new
/// connect cycle gives an active service.
pub proof fn lemma_events_never_reconnect<S>(state: ServiceState<S>, event: ServiceEvent)
    ensures
        !(state.after(event) is Active),
        !(state is Active) ==> state.after(event) == state,
        state is Active ==> (state.after(event) is Inactive <==> event == ServiceEvent::StreamClosed),
        state.after(event).health() != ServiceStatus::Connected || !(state is Active),
{
}

} // verus!
