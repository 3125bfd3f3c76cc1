//! Path parameters of the routes that address apps and rooms.

use vstd::prelude::*;
use crate::maf_schemas::apps::AppNameAndOrgSlug;

verus! {

/// The path parameters for paths like `/@/{org_slug}/{app_name}/{room_key}`.
#[derive(Debug, Clone)]
pub struct AppRoomPath {
    pub app_id: AppOrgPath,
    pub room_key: String,
}

impl AppRoomPath {
    /// The app the path addresses.
    pub fn app_org(&self) -> (id: AppNameAndOrgSlug)
        ensures
            id.app@ == self.app_id.app_name@,
            id.org@ == self.app_id.org_slug@,
    {
        self.app_id.app_org()
    }
}

/// The path parameters for paths like `/@/{org_slug}/{app_name}`.
#[derive(Debug, Clone)]
pub struct AppOrgPath {
    pub org_slug: String,
    pub app_name: String,
}

impl AppOrgPath {
    /// The app the path addresses.
    pub fn app_org(&self) -> (id: AppNameAndOrgSlug)
        ensures
            id.app@ == self.app_name@,
            id.org@ == self.org_slug@,
    {
        AppNameAndOrgSlug { app: self.app_name.clone(), org: self.org_slug.clone() }
    }
}

} // verus!
