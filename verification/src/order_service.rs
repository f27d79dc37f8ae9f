//! The order pipeline: validate, open a workflow, transform and enrich
//! the request, then — after the submission, which runs through the
//! resilient client outside this crate — enrich the result and settle
//! the workflow.
use vstd::prelude::*;
use crate::domain::CreateSiteOrder;
use crate::enrichment::{EnrichmentData, ObjectEnricher, enrich_site_post};
use crate::errors::AppError;
use crate::models::{CreateSiteRequest, NetBoxSite};
use crate::tenant_access::TenantId;
use crate::transformation::{OrderTransformer, transform_post};
use crate::validation::{OrderValidator, site_order_result, spec_validation_message};
use crate::workflow::{OrderState, WorkflowManager, WorkflowView};

verus! {

/// What the pipeline returns for a completed order.
#[derive(Debug)]
pub struct ProcessedOrderResult {
    pub order_id: String,
    pub tenant_id: TenantId,
    pub netbox_site: NetBoxSite,
    pub workflow_state: OrderState,
}

/// The status of an order as reported to its tenant.
#[derive(Debug)]
pub struct OrderStatus {
    pub order_id: String,
    pub state: OrderState,
    pub netbox_site_id: Option<i32>,
    pub created_at: u64,
    pub updated_at: u64,
}

/// The order service: the pipeline's rules and its workflow store.
pub struct OrderService {
    pub validator: OrderValidator,
    pub transformer: OrderTransformer,
    pub enricher: ObjectEnricher,
    pub workflow_manager: WorkflowManager,
}

impl OrderService {
    pub open spec fn wf(self) -> bool {
        self.workflow_manager.wf()
    }

    /// A service with the default rules and an empty workflow store.
    pub fn new() -> (r: Self)
        ensures
            r.wf(),
            r.workflow_manager.entries() == Seq::<WorkflowView>::empty(),
            r.validator.max_name_length == 100,
            r.validator.max_description_length == 500,
            r.validator.max_address_length == 200,
            r.transformer.default_status == crate::models::SiteStatus::Planned,
    {
        OrderService {
            validator: OrderValidator::new(),
            transformer: OrderTransformer::new(),
            enricher: ObjectEnricher::new(),
            workflow_manager: WorkflowManager::new(),
        }
    }

    /// The front half of the pipeline: validate the order, open a
    /// workflow, move it to Validated, build the inventory request with
    /// the portal tags, and move the workflow to Processing. A rejected
    /// order creates no workflow; an accepted one leaves a Processing
    /// workflow under the returned order id.
    pub fn prepare_site_order(&mut self, order: CreateSiteOrder, tenant_id: TenantId) -> (r: Result<
        (String, CreateSiteRequest),
        AppError,
    >)
        requires
            old(self).wf(),
        ensures
            final(self).wf(),
            r is Ok <==> site_order_result(
                order@,
                old(self).validator.max_name_length as nat,
                old(self).validator.max_description_length as nat,
                old(self).validator.max_address_length as nat,
            ) is Ok,
            r is Err ==> (site_order_result(
                order@,
                old(self).validator.max_name_length as nat,
                old(self).validator.max_description_length as nat,
                old(self).validator.max_address_length as nat,
            ) matches Err(ve) && r matches Err(AppError::ValidationError(m)) && m@
                == spec_validation_message(ve) && final(self).workflow_manager.entries() == old(
                self,
            ).workflow_manager.entries()),
            r matches Ok((order_id, request)) ==> final(self).workflow_manager.has_order(order_id@)
                && final(self).workflow_manager.order_view(order_id@).state
                == OrderState::Processing && final(self).workflow_manager.order_view(
                order_id@,
            ).tenant_id == tenant_id@ && transform_post(
                order@,
                None,
                old(self).transformer.default_status,
                crate::models::SiteRequestContent {
                    tags: Some(seq!["netgate"@, "order-portal"@]),
                    ..request@
                },
            ) && (request@.tags matches Some(t) && t.len() == 4 && t[0] == "netgate"@ && t[1]
                == "order-portal"@ && t[2] == "netgate"@ && t[3] == "enriched"@),
            r matches Ok((order_id, _)) ==> forall|id: Seq<char>|
                id != order_id@ ==> #[trigger] final(self).workflow_manager.has_order(id) == old(self).workflow_manager.has_order(id),
            final(self).validator == old(self).validator,
            final(self).transformer == old(self).transformer,
            final(self).enricher == old(self).enricher,
    {
        if let Err(e) = self.validator.validate_site_order(&order) {
            return Err(AppError::ValidationError(e.message()));
        }
        let order_id = self.workflow_manager.create_order(tenant_id);
        let vr = self.workflow_manager.update_order_state(order_id.as_str(), OrderState::Validated);
        proof {
            assert(vr is Ok);
        }
        let mut request = self.transformer.transform_site_order(order, None);
        let mut tags = match request.tags.take() {
            Some(t) => t,
            None => Vec::new(),
        };
        tags.push(String::from_str("netgate"));
        tags.push(String::from_str("enriched"));
        proof {
            assert(tags.deep_view() =~= seq!["netgate"@, "order-portal"@, "netgate"@, "enriched"@]);
        }
        request.tags = Some(tags);
        let pr = self.workflow_manager.update_order_state(
            order_id.as_str(),
            OrderState::Processing,
        );
        proof {
            assert(pr is Ok);
        }
        Ok((order_id, request))
    }

    /// The back half of the pipeline, after a successful submission:
    /// enrich the created site, record its inventory id on the workflow
    /// and mark it Completed, and hand the result back.
    pub fn complete_site_order(&mut self, order_id: String, tenant_id: TenantId, site: NetBoxSite) -> (r:
        Result<ProcessedOrderResult, AppError>)
        requires
            old(self).wf(),
            old(self).workflow_manager.has_order(order_id@),
            old(self).workflow_manager.order_view(order_id@).state == OrderState::Processing,
        ensures
            final(self).wf(),
            r is Ok,
            r matches Ok(res) ==> res.order_id@ == order_id@ && res.tenant_id@ == tenant_id@
                && enrich_site_post(
                site@,
                crate::order_service::empty_enrichment(),
                old(self).enricher@,
                res.netbox_site@,
            ),
            final(self).workflow_manager.has_order(order_id@),
            site@.id matches Some(sid) ==> final(self).workflow_manager.order_view(order_id@) == (
            crate::workflow::WorkflowView {
                state: OrderState::Completed,
                updated_at: final(self).workflow_manager.order_view(order_id@).updated_at,
                netbox_site_id: Some(sid),
                ..old(self).workflow_manager.order_view(order_id@)
            }),
            site@.id is None ==> final(self).workflow_manager.entries() == old(
                self,
            ).workflow_manager.entries(),
            forall|id: Seq<char>|
                id != order_id@ ==> #[trigger] final(self).workflow_manager.has_order(id) == old(
                    self,
                ).workflow_manager.has_order(id),
            forall|id: Seq<char>|
                id != order_id@ && old(self).workflow_manager.has_order(id) ==> #[trigger] final(self).workflow_manager.order_view(id) == old(self).workflow_manager.order_view(id),
            r matches Ok(res) ==> res.workflow_state == final(self).workflow_manager.order_view(
                order_id@,
            ).state,
            final(self).enricher == old(self).enricher,
    {
        let enrichment = EnrichmentData::default();
        let ghost sv = site@;
        let enriched = self.enricher.enrich_site(site, &enrichment);
        proof {
            assert(enrichment@ == empty_enrichment());
            assert(enriched@.id == sv.id);
        }
        if let Some(site_id) = enriched.id {
            let cr = self.workflow_manager.mark_order_completed(order_id.as_str(), site_id);
            proof {
                assert(cr is Ok);
            }
        }
        let w = match self.workflow_manager.get_order(order_id.as_str()) {
            Some(w) => w,
            None => {
                return Err(
                    AppError::Internal(
                        String::from_str("Workflow not found after processing"),
                    ),
                );
            },
        };
        Ok(
            ProcessedOrderResult {
                order_id,
                tenant_id,
                netbox_site: enriched,
                workflow_state: w.state,
            },
        )
    }

    /// The back half of the pipeline after a failed submission: mark the
    /// workflow Failed with the error's message and surface the error.
    pub fn fail_site_order(&mut self, order_id: &str, error: AppError) -> (r: AppError)
        requires
            old(self).wf(),
        ensures
            final(self).wf(),
            r == error,
            forall|id: Seq<char>| #[trigger]
                final(self).workflow_manager.has_order(id) == old(self).workflow_manager.has_order(
                    id,
                ),
            old(self).workflow_manager.has_order(order_id@) && old(self).workflow_manager.order_view(order_id@).state.spec_can_transition_to(
                OrderState::Failed,
            ) ==> final(self).workflow_manager.order_view(order_id@) == (
            crate::workflow::WorkflowView {
                state: OrderState::Failed,
                updated_at: final(self).workflow_manager.order_view(order_id@).updated_at,
                error_message: Some(crate::errors::spec_app_message(error)),
                ..old(self).workflow_manager.order_view(order_id@)
            }),
            !(old(self).workflow_manager.has_order(order_id@) && old(self).workflow_manager.order_view(order_id@).state.spec_can_transition_to(
                OrderState::Failed,
            )) ==> final(self).workflow_manager.entries() == old(self).workflow_manager.entries(),
            forall|id: Seq<char>|
                id != order_id@ && old(self).workflow_manager.has_order(id) ==> #[trigger] final(self).workflow_manager.order_view(id) == old(self).workflow_manager.order_view(id),
    {
        let msg = error.message();
        let _ = self.workflow_manager.mark_order_failed(order_id, msg);
        error
    }

    /// The status of an order, visible only to its tenant: an unknown id
    /// is NotFound, another tenant's order is Unauthorized.
    pub fn get_order_status(&self, order_id: &str, tenant_id: &TenantId) -> (r: Result<
        OrderStatus,
        AppError,
    >)
        requires
            self.wf(),
        ensures
            r is Ok <==> self.workflow_manager.has_order(order_id@)
                && self.workflow_manager.order_view(order_id@).tenant_id == tenant_id@,
            !self.workflow_manager.has_order(order_id@) ==> r matches Err(AppError::NotFound(_)),
            self.workflow_manager.has_order(order_id@) && self.workflow_manager.order_view(
                order_id@,
            ).tenant_id != tenant_id@ ==> r matches Err(AppError::Unauthorized),
            r matches Ok(st) ==> st.order_id@ == order_id@ && st.state
                == self.workflow_manager.order_view(order_id@).state && st.netbox_site_id
                == self.workflow_manager.order_view(order_id@).netbox_site_id && st.created_at
                == self.workflow_manager.order_view(order_id@).created_at && st.updated_at
                == self.workflow_manager.order_view(order_id@).updated_at,
    {
        let w = match self.workflow_manager.get_order(order_id) {
            Some(w) => w,
            None => {
                return Err(
                    AppError::NotFound(
                        String::from_str("Order ").concat(order_id).concat(" not found"),
                    ),
                );
            },
        };
        if !crate::strutil::str_eq(w.tenant_id.as_str(), tenant_id.as_str()) {
            return Err(AppError::Unauthorized);
        }
        Ok(
            OrderStatus {
                order_id: String::from_str(order_id),
                state: w.state,
                netbox_site_id: w.netbox_site_id,
                created_at: w.created_at,
                updated_at: w.updated_at,
            },
        )
    }
}

/// Enrichment data with nothing set, as the pipeline uses today.
pub open spec fn empty_enrichment() -> crate::enrichment::EnrichContent {
    crate::enrichment::EnrichContent {
        geographic: None,
        contact: None,
        business: None,
        tags: Seq::empty(),
        metadata: Seq::empty(),
    }
}

} // verus!
