//! Decision logic of a rotating proxy front-end: the shared state with its
//! bounded activity log, failover between proxy pools, the retry rule of the
//! request interceptor, the bookkeeping of Tor and WARP instances, the
//! configuration plan for the 9Router service and the dashboard's view rules.
pub mod text;
pub mod state;
pub mod failover;
pub mod interceptor;
pub mod tor;
pub mod ui;
pub mod warp;
pub mod router;
pub mod completion;
