use vstd::prelude::*;

use crate::user::events::{UserEvent, UserEventView};

verus! {

/// An event of the domain, as it goes into the outbox.
#[derive(Debug, Clone)]
pub enum DomainEvent {
    UserEvent(UserEvent),
}

/// The model of a [`DomainEvent`].
pub enum DomainEventView {
    UserEvent(UserEventView),
}

impl View for DomainEvent {
    type V = DomainEventView;

    open spec fn view(&self) -> DomainEventView {
        match self {
            DomainEvent::UserEvent(e) => DomainEventView::UserEvent(e@),
        }
    }
}

impl DomainEventView {
    /// The name of the event's type: the family, two colons, and the kind.
    pub open spec fn event_type(self) -> Seq<char> {
        match self {
            DomainEventView::UserEvent(e) => "UserEvent::"@ + e.kind_name(),
        }
    }
}

impl From<UserEvent> for DomainEvent {
    fn from(event: UserEvent) -> (r: DomainEvent) {
        DomainEvent::UserEvent(event)
    }
}

impl vstd::std_specs::convert::FromSpecImpl<UserEvent> for DomainEvent {
    open spec fn obeys_from_spec() -> bool {
        true
    }

    open spec fn from_spec(v: UserEvent) -> DomainEvent {
        DomainEvent::UserEvent(v)
    }
}

impl DomainEvent {
    /// The name of the event's type, such as `UserEvent::Created`.
    pub fn event_type(&self) -> (r: &'static str)
        ensures
            r@ == self@.event_type(),
    {
        proof {
            reveal_strlit("UserEvent::");
        }
        match self {
            DomainEvent::UserEvent(e) => match e {
                UserEvent::Created(_) => {
                    proof {
                        reveal_strlit("Created");
                        reveal_strlit("UserEvent::Created");
                    }
                    "UserEvent::Created"
                },
                UserEvent::Suspended(_) => {
                    proof {
                        reveal_strlit("Suspended");
                        reveal_strlit("UserEvent::Suspended");
                    }
                    "UserEvent::Suspended"
                },
                UserEvent::Unlocked(_) => {
                    proof {
                        reveal_strlit("Unlocked");
                        reveal_strlit("UserEvent::Unlocked");
                    }
                    "UserEvent::Unlocked"
                },
                UserEvent::Deactivated(_) => {
                    proof {
                        reveal_strlit("Deactivated");
                        reveal_strlit("UserEvent::Deactivated");
                    }
                    "UserEvent::Deactivated"
                },
                UserEvent::Reactivated(_) => {
                    proof {
                        reveal_strlit("Reactivated");
                        reveal_strlit("UserEvent::Reactivated");
                    }
                    "UserEvent::Reactivated"
                },
                UserEvent::PromotedToAdmin(_) => {
                    proof {
                        reveal_strlit("PromotedToAdmin");
                        reveal_strlit("UserEvent::PromotedToAdmin");
                    }
                    "UserEvent::PromotedToAdmin"
                },
                UserEvent::UsernameChanged(_) => {
                    proof {
                        reveal_strlit("UsernameChanged");
                        reveal_strlit("UserEvent::UsernameChanged");
                    }
                    "UserEvent::UsernameChanged"
                },
                UserEvent::EmailChanged(_) => {
                    proof {
                        reveal_strlit("EmailChanged");
                        reveal_strlit("UserEvent::EmailChanged");
                    }
                    "UserEvent::EmailChanged"
                },
                UserEvent::EmailVerified(_) => {
                    proof {
                        reveal_strlit("EmailVerified");
                        reveal_strlit("UserEvent::EmailVerified");
                    }
                    "UserEvent::EmailVerified"
                },
            },
        }
    }

    /// The name of the event's type, as an owned string.
    pub fn to_string(&self) -> (r: String)
        ensures
            r@ == self@.event_type(),
    {
        self.event_type().to_owned()
    }
}

} // verus!
