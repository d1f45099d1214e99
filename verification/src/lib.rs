//! A caching proxy's core for the releases of repositories: the stable names
//! of release assets, the time-to-live rule, the coordinator that lets one
//! fetch per repository run at a time, the shapes in which the hosts list
//! their releases, and the pages that are served.

pub mod asset_name;
pub mod cache;
pub mod coordinator;
pub mod keys;
pub mod links;
pub mod model;
pub mod pages;
pub mod provider;
pub mod releases_page;
pub mod request;
pub mod single_flight;
pub mod size;
pub mod snapshots;
pub mod text;
pub mod time;
