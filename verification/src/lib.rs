//! Weighted Petri nets: a registry of places and transitions joined by weighted
//! arcs, tokens that mark the places of a net, and the rules by which a
//! transition is enabled and fires.

pub mod net;

pub use crate::net::arcs::{Arcs, W};
pub use crate::net::kind::{KindView, RegistryView};
pub use crate::net::marking::{ArcView, TransView};
pub use crate::net::place::{Place, PlaceId, PlaceMetadata, Places, Pn};
pub use crate::net::token::Token;
pub use crate::net::trans::{Flows, Inflow, Outflow, Tn, Trans, TransId, TransMetadata, Transitions};
pub use crate::net::model::NetView;
pub use crate::net::{BuildError, NetId, Nn, NotEnabled, NotEnoughMarks, PetriNet};
