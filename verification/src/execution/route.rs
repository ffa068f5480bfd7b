//! Execution routes.
use vstd::prelude::*;
use crate::accounting::orders::AssetType;

verus! {

/// A route that orders can be sent through.
#[derive(Clone, Debug)]
pub struct Route {
    /// The id of the route.
    pub id: String,
    /// The name of the route.
    pub name: String,
    /// The asset types the route serves.
    pub asset_types: Vec<AssetType>,
}

impl Route {
    /// The endpoint that lists the execution routes.
    pub fn list_endpoint() -> (r: &'static str)
        ensures
            r@ == "orderexecution/routes"@,
    {
        "orderexecution/routes"
    }
}

} // verus!
