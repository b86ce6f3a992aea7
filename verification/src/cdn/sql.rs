//! The query of the file endpoint.

use vstd::prelude::*;
use crate::error::SqlError;
use crate::service::{table_wf, JMServiceInner};
use crate::tables::{is_stored_as, latest};

verus! {

/// The content id of the file that a user holds under a name: of several
/// rows, that of the one with the highest id, so the most recent wins.
/// `RowNotFound` where the user holds none.
pub fn get_cid(user: String, filename: String, service: &JMServiceInner) -> (r: Result<
    String,
    SqlError,
>)
    ensures
        match r {
            Ok(cid) => {
                &&& latest(service.rows(), user@, filename@) matches Some(row)
                &&& row.ipfs == cid@
                &&& forall|i: int|
                    0 <= i < service.rows().len() && is_stored_as(
                        #[trigger] service.rows()[i],
                        user@,
                        filename@,
                    ) ==> service.rows()[i].id <= row.id
            },
            Err(e) => latest(service.rows(), user@, filename@) is None && e
                == SqlError::RowNotFound,
        },
        table_wf(service.rows()),
{
    match service.get_user_meme(user, filename) {
        Ok(Some(meme)) => Ok(meme.ipfs),
        _ => Err(SqlError::RowNotFound),
    }
}

} // verus!
