//! Builder for desktop toast notifications: a typed description of a
//! notification is turned into a well-formed XML tree and serialized to text.

pub mod notification;
pub mod xml;

pub use xml::XmlElem;
