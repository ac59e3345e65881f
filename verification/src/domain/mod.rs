//! Plain data: containers, images, their IDs and the actions on them.
pub mod action;
pub mod container;
pub mod ids;
pub mod image;
pub mod time;

pub use action::{ActionKind, Target, TargetView};
pub use container::{Container, ContainerState, PortMapping, Protocol, Severity, UnknownProtocol};
pub use ids::{ContainerId, ImageId};
pub use image::{ByteSize, Image, ImageRef};
pub use time::Timestamp;
