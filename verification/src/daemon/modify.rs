//! Modifying the startup type or description of registered handlers.

use vstd::prelude::*;
use crate::daemon::handler_mapping::{modified, HandlerMapping};
use crate::daemon::mapping::{dirs, Mapping};
use crate::messages::{is_refusal, ModifyHandlerRequest, ServiceError, StatusCode};
use crate::text::join2;

verus! {

/// An entry whose handler a modify request has changed.
pub open spec fn modified_entry(e: (String, HandlerMapping), request: ModifyHandlerRequest) -> (String, HandlerMapping) {
    (e.0, modified(e.1, request))
}

/// The refusal answered when the modified mapping could not be saved.
pub fn modify_save_failure(error_text: &str) -> (e: ServiceError)
    ensures
        e.code == StatusCode::Unknown,
        e.message@ == "Failed to save modifications to mapping file.\nErr - "@ + error_text@,
{
    ServiceError::new(StatusCode::Unknown, join2("Failed to save modifications to mapping file.\nErr - ", error_text))
}

impl Mapping {
    /// The modify answer: the registered directory's handler is modified, or
    /// every handler for an empty unregistered path; any other path is refused.
    pub open spec fn modify_answer(
        &self,
        new: Seq<(String, HandlerMapping)>,
        request: ModifyHandlerRequest,
        r: Result<(), ServiceError>,
    ) -> bool {
        let d = request.directory_path@;
        let old = self.entries();
        if self.registered(d) {
            let i = self.position(d);
            &&& new == old.update(i, modified_entry(old[i], request))
            &&& r is Ok
        } else if d.len() == 0 {
            &&& new.len() == old.len()
            &&& forall|j: int| 0 <= j < old.len() ==> #[trigger] new[j] == modified_entry(old[j], request)
            &&& r is Ok
        } else {
            &&& new == old
            &&& is_refusal(r, StatusCode::NotFound, "Directory isn't registered to handle"@)
        }
    }

    /// Modifies the handlers a request names; on success the mapping is to be saved.
    pub fn modify_handler(&mut self, request: &ModifyHandlerRequest) -> (r: Result<(), ServiceError>)
        requires
            old(self).wf(),
        ensures
            final(self).wf(),
            dirs(final(self).entries()) == dirs(old(self).entries()),
            old(self).modify_answer(final(self).entries(), *request, r),
    {
        let d = request.directory_path.as_str();
        match self.find(d) {
            Some(i) => {
                let (key, mut handler) = self.directory_mapping.remove(i);
                handler.modify(request);
                self.directory_mapping.insert(i, (key, handler));
                assert(self.entries() =~= old(self).entries().update(
                    i as int,
                    modified_entry(old(self).entries()[i as int], *request),
                ));
                assert(dirs(self.entries()) =~= dirs(old(self).entries()));
                Ok(())
            },
            None => {
                if d.is_empty() {
                    let mut i: usize = 0;
                    while i < self.directory_mapping.len()
                        invariant
                            self.entries().len() == old(self).entries().len(),
                            i <= self.entries().len(),
                            forall|j: int| 0 <= j < i ==> #[trigger] self.entries()[j] == modified_entry(
                                old(self).entries()[j],
                                *request,
                            ),
                            forall|j: int| i <= j < self.entries().len() ==> #[trigger] self.entries()[j] == old(
                                self,
                            ).entries()[j],
                        decreases self.entries().len() - i,
                    {
                        let (key, mut handler) = self.directory_mapping.remove(i);
                        handler.modify(request);
                        self.directory_mapping.insert(i, (key, handler));
                        i = i + 1;
                    }
                    assert(dirs(self.entries()) =~= dirs(old(self).entries()));
                    Ok(())
                } else {
                    Err(ServiceError::new(StatusCode::NotFound, String::from_str("Directory isn't registered to handle")))
                }
            },
        }
    }
}

} // verus!
