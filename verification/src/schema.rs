//! The grouped API surface: the two roots under which the user and post
//! queries and mutations are exposed. The GraphQL wiring itself lives at the
//! unverified edge; these roots only gather the decision surfaces.
use vstd::prelude::*;

use crate::accounts::{Mutation, Query};
use crate::posts::{CMSMutation, CmsQuery};

verus! {

/// The root every query is reached under.
pub struct QueryRoot {
    pub users: Query,
    pub cms: CmsQuery,
}

/// The root every mutation is reached under.
pub struct MutationRoot {
    pub users: Mutation,
    pub cms: CMSMutation,
}

} // verus!
