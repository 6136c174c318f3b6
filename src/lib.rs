//! Guest side of a host runtime's device interface: a bridge over the two
//! host-supplied functions (device lookup by name, command dispatch by device
//! handle), and a display window that owns one host resource.
pub mod aqua;
pub mod win;
