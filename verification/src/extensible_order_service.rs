//! The extensible order pipeline: the same flow as the order service,
//! with the processor resolved from the registry by order-type name.
use vstd::prelude::*;
use crate::enrichment::EnrichmentData;
use crate::models::SiteRequestContent;
use crate::transformation::transform_post;
use crate::validation::{site_order_result, spec_validation_message};
use crate::errors::AppError;
use crate::plugin::{NetBoxResource, NetBoxResourceRequest, OrderPayload, OrderTypeRegistry};
use crate::processors::SiteOrderProcessor;
use crate::tenant_access::TenantId;
use crate::workflow::{OrderState, WorkflowManager, WorkflowView};

verus! {

/// What the extensible pipeline returns for a completed order.
#[derive(Debug)]
pub struct ProcessedOrderResult {
    pub order_id: String,
    pub tenant_id: TenantId,
    pub netbox_resource: NetBoxResource,
    pub workflow_state: OrderState,
}

/// The status of an order as reported to its tenant.
#[derive(Debug)]
pub struct OrderStatus {
    pub order_id: String,
    pub state: OrderState,
    pub netbox_resource_id: Option<i32>,
    pub created_at: u64,
    pub updated_at: u64,
}

/// The extensible order service: a processor registry and the workflow
/// store.
pub struct ExtensibleOrderService {
    pub registry: OrderTypeRegistry,
    pub workflow_manager: WorkflowManager,
}

impl ExtensibleOrderService {
    pub open spec fn wf(self) -> bool {
        self.workflow_manager.wf()
    }

    /// A service over the given registry, with an empty workflow store.
    pub fn new(registry: OrderTypeRegistry) -> (r: Self)
        ensures
            r.wf(),
            r.workflow_manager.entries() == Seq::<WorkflowView>::empty(),
            r.registry == registry,
    {
        ExtensibleOrderService { registry, workflow_manager: WorkflowManager::new() }
    }

    /// The name the order runs under: the caller's, or the registry's
    /// default when the caller gives none.
    pub open spec fn resolved_order_type(self, order_type: Option<&str>) -> Seq<char> {
        match order_type {
            Some(t) => t@,
            None => self.registry.spec_default_order_type(),
        }
    }

    /// The front half of the pipeline: resolve the processor by the
    /// order type (or the registry's default), validate, open a
    /// workflow, transform and enrich the request, and leave the
    /// workflow Processing. The order is accepted exactly when the
    /// resolved type has a processor and that processor's validation
    /// passes; an unknown order type or a rejected order creates no
    /// workflow.
    pub fn prepare_order(
        &mut self,
        order: OrderPayload,
        tenant_id: TenantId,
        order_type: Option<&str>,
    ) -> (r: Result<(String, NetBoxResourceRequest), AppError>)
        requires
            old(self).wf(),
        ensures
            final(self).wf(),
            r is Err ==> (r matches Err(AppError::ValidationError(_)) && final(self).workflow_manager.entries() == old(self).workflow_manager.entries()),
            r is Ok <==> old(self).registry.spec_is_registered(
                old(self).resolved_order_type(order_type),
            ) && (match order {
                OrderPayload::Site(o) => site_order_result(
                    o@,
                    old(self).registry.spec_processor_of(
                        old(self).resolved_order_type(order_type),
                    ).validator.max_name_length as nat,
                    old(self).registry.spec_processor_of(
                        old(self).resolved_order_type(order_type),
                    ).validator.max_description_length as nat,
                    old(self).registry.spec_processor_of(
                        old(self).resolved_order_type(order_type),
                    ).validator.max_address_length as nat,
                ) is Ok,
            }),
            old(self).registry.spec_is_registered(old(self).resolved_order_type(order_type))
                && r is Err ==> (match order {
                OrderPayload::Site(o) => site_order_result(
                    o@,
                    old(self).registry.spec_processor_of(
                        old(self).resolved_order_type(order_type),
                    ).validator.max_name_length as nat,
                    old(self).registry.spec_processor_of(
                        old(self).resolved_order_type(order_type),
                    ).validator.max_description_length as nat,
                    old(self).registry.spec_processor_of(
                        old(self).resolved_order_type(order_type),
                    ).validator.max_address_length as nat,
                ) matches Err(ve) && (r matches Err(AppError::ValidationError(m)) && m@
                    == spec_validation_message(ve)),
            }),
            r matches Ok((order_id, request)) ==> final(self).workflow_manager.has_order(order_id@)
                && final(self).workflow_manager.order_view(order_id@).state
                == OrderState::Processing && final(self).workflow_manager.order_view(
                order_id@,
            ).tenant_id == tenant_id@ && (match order {
                OrderPayload::Site(o) => request matches NetBoxResourceRequest::Site(sreq)
                    && transform_post(
                    o@,
                    None,
                    old(self).registry.spec_processor_of(
                        old(self).resolved_order_type(order_type),
                    ).transformer.default_status,
                    SiteRequestContent { tags: Some(seq!["netgate"@, "order-portal"@]), ..sreq@ },
                ) && (sreq@.tags matches Some(t) && t == seq![
                    "netgate"@,
                    "order-portal"@,
                    "netgate"@,
                    "enriched"@,
                ]),
            }),
            r matches Ok((order_id, _)) ==> forall|id: Seq<char>|
                id != order_id@ ==> #[trigger] final(self).workflow_manager.has_order(id) == old(self).workflow_manager.has_order(id),
            final(self).registry == old(self).registry,
    {
        let resolved: &str = match order_type {
            Some(t) => t,
            None => self.registry.default_order_type(),
        };
        let processor: &SiteOrderProcessor = match self.registry.get_processor(resolved) {
            Some(p) => p,
            None => {
                return Err(
                    AppError::ValidationError(
                        String::from_str("No processor registered for order type: ").concat(
                            resolved,
                        ),
                    ),
                );
            },
        };
        if let Err(e) = processor.validate(&order) {
            return Err(e);
        }
        let transformed = processor.transform(order, None);
        let mut request = match transformed {
            Ok(req) => req,
            Err(e) => {
                return Err(e);
            },
        };
        let enrichment = EnrichmentData::default();
        let er = processor.enrich_request(&mut request, &enrichment);
        if let Err(e) = er {
            return Err(e);
        }
        proof {
            let sreq = request->Site_0;
            assert(sreq@.tags matches Some(t) && t =~= seq![
                "netgate"@,
                "order-portal"@,
                "netgate"@,
                "enriched"@,
            ]);
        }
        let order_id = self.workflow_manager.create_order(tenant_id);
        let vr = self.workflow_manager.update_order_state(order_id.as_str(), OrderState::Validated);
        proof {
            assert(vr is Ok);
        }
        let pr = self.workflow_manager.update_order_state(
            order_id.as_str(),
            OrderState::Processing,
        );
        proof {
            assert(pr is Ok);
        }
        Ok((order_id, request))
    }

    /// The back half of the pipeline after a successful submission:
    /// enrich the resource, record its id and mark the workflow
    /// Completed, and hand the result back.
    pub fn complete_order(
        &mut self,
        order_id: String,
        tenant_id: TenantId,
        resource: NetBoxResource,
        processor: &SiteOrderProcessor,
    ) -> (r: Result<ProcessedOrderResult, AppError>)
        requires
            old(self).wf(),
            old(self).workflow_manager.has_order(order_id@),
            old(self).workflow_manager.order_view(order_id@).state == OrderState::Processing,
        ensures
            final(self).wf(),
            r is Ok,
            r matches Ok(res) ==> res.order_id@ == order_id@ && res.tenant_id@ == tenant_id@
                && (match (resource, res.netbox_resource) {
                (NetBoxResource::Site(s), NetBoxResource::Site(s2)) => crate::enrichment::enrich_site_post(
                    s@,
                    crate::order_service::empty_enrichment(),
                    processor.enricher@,
                    s2@,
                ),
            }),
            final(self).workflow_manager.has_order(order_id@),
            (match resource {
                NetBoxResource::Site(s) => (match s@.id {
                    Some(sid) => final(self).workflow_manager.order_view(order_id@) == (
                    crate::workflow::WorkflowView {
                        state: OrderState::Completed,
                        updated_at: final(self).workflow_manager.order_view(order_id@).updated_at,
                        netbox_site_id: Some(sid),
                        ..old(self).workflow_manager.order_view(order_id@)
                    }),
                    None => final(self).workflow_manager.entries() == old(
                        self,
                    ).workflow_manager.entries(),
                }),
            }),
            forall|id: Seq<char>|
                id != order_id@ ==> #[trigger] final(self).workflow_manager.has_order(id) == old(self).workflow_manager.has_order(id),
            forall|id: Seq<char>|
                id != order_id@ && old(self).workflow_manager.has_order(id) ==> #[trigger] final(self).workflow_manager.order_view(id) == old(self).workflow_manager.order_view(id),
            r matches Ok(res) ==> res.workflow_state == final(self).workflow_manager.order_view(
                order_id@,
            ).state,
    {
        let enrichment = EnrichmentData::default();
        let enriched = processor.enrich_resource(resource, &enrichment);
        if let Some(resource_id) = enriched.resource_id() {
            let cr = self.workflow_manager.mark_order_completed(order_id.as_str(), resource_id);
            proof {
                assert(cr is Ok);
            }
        }
        let w = match self.workflow_manager.get_order(order_id.as_str()) {
            Some(w) => w,
            None => {
                return Err(
                    AppError::Internal(
                        String::from_str("Workflow not found after processing"),
                    ),
                );
            },
        };
        Ok(
            ProcessedOrderResult {
                order_id,
                tenant_id,
                netbox_resource: enriched,
                workflow_state: w.state,
            },
        )
    }

    /// The back half after a failed submission: mark the workflow Failed
    /// and surface the error.
    pub fn fail_order(&mut self, order_id: &str, error: AppError) -> (r: AppError)
        requires
            old(self).wf(),
        ensures
            final(self).wf(),
            r == error,
            forall|id: Seq<char>| #[trigger]
                final(self).workflow_manager.has_order(id) == old(self).workflow_manager.has_order(
                    id,
                ),
            old(self).workflow_manager.has_order(order_id@) && old(self).workflow_manager.order_view(order_id@).state.spec_can_transition_to(
                OrderState::Failed,
            ) ==> final(self).workflow_manager.order_view(order_id@) == (
            crate::workflow::WorkflowView {
                state: OrderState::Failed,
                updated_at: final(self).workflow_manager.order_view(order_id@).updated_at,
                error_message: Some(crate::errors::spec_app_message(error)),
                ..old(self).workflow_manager.order_view(order_id@)
            }),
            !(old(self).workflow_manager.has_order(order_id@) && old(self).workflow_manager.order_view(order_id@).state.spec_can_transition_to(
                OrderState::Failed,
            )) ==> final(self).workflow_manager.entries() == old(self).workflow_manager.entries(),
            forall|id: Seq<char>|
                id != order_id@ && old(self).workflow_manager.has_order(id) ==> #[trigger] final(self).workflow_manager.order_view(id) == old(self).workflow_manager.order_view(id),
    {
        let msg = error.message();
        let _ = self.workflow_manager.mark_order_failed(order_id, msg);
        error
    }

    /// The status of an order, visible only to its tenant.
    pub fn get_order_status(&self, order_id: &str, tenant_id: &TenantId) -> (r: Result<
        OrderStatus,
        AppError,
    >)
        requires
            self.wf(),
        ensures
            r is Ok <==> self.workflow_manager.has_order(order_id@)
                && self.workflow_manager.order_view(order_id@).tenant_id == tenant_id@,
            !self.workflow_manager.has_order(order_id@) ==> r matches Err(AppError::NotFound(_)),
            self.workflow_manager.has_order(order_id@) && self.workflow_manager.order_view(
                order_id@,
            ).tenant_id != tenant_id@ ==> r matches Err(AppError::Unauthorized),
            r matches Ok(st) ==> st.order_id@ == order_id@ && st.state
                == self.workflow_manager.order_view(order_id@).state && st.netbox_resource_id
                == self.workflow_manager.order_view(order_id@).netbox_site_id,
    {
        let w = match self.workflow_manager.get_order(order_id) {
            Some(w) => w,
            None => {
                return Err(
                    AppError::NotFound(
                        String::from_str("Order ").concat(order_id).concat(" not found"),
                    ),
                );
            },
        };
        if !crate::strutil::str_eq(w.tenant_id.as_str(), tenant_id.as_str()) {
            return Err(AppError::Unauthorized);
        }
        Ok(
            OrderStatus {
                order_id: String::from_str(order_id),
                state: w.state,
                netbox_resource_id: w.netbox_site_id,
                created_at: w.created_at,
                updated_at: w.updated_at,
            },
        )
    }
}

/// Builds an extensible order service with its processors.
pub struct ExtensibleOrderServiceBuilder {
    registry: OrderTypeRegistry,
}

impl ExtensibleOrderServiceBuilder {
    /// A builder over an empty registry whose default order type is
    /// `site`.
    pub fn new() -> (r: Self)
        ensures
            r.spec_registry().registered() == Seq::<Seq<char>>::empty(),
            r.spec_registry().spec_default_order_type() == "site"@,
    {
        ExtensibleOrderServiceBuilder { registry: OrderTypeRegistry::default() }
    }

    /// The registry built so far.
    pub closed spec fn spec_registry(self) -> OrderTypeRegistry {
        self.registry
    }

    /// The builder with one more processor registered.
    pub fn with_processor(self, processor: SiteOrderProcessor) -> (r: Self)
        ensures
            r.spec_registry().entries() == self.spec_registry().entries().push(
                ("site"@, processor),
            ),
            r.spec_registry().registered() == self.spec_registry().registered().push("site"@),
            r.spec_registry().spec_default_order_type()
                == self.spec_registry().spec_default_order_type(),
    {
        let mut registry = self.registry;
        registry.register(processor);
        ExtensibleOrderServiceBuilder { registry }
    }

    /// The builder with the default site processor registered: default
    /// validation bounds and the Planned default status.
    pub fn with_default_processors(self) -> (r: Self)
        ensures
            r.spec_registry().registered() == self.spec_registry().registered().push("site"@),
            r.spec_registry().spec_default_order_type()
                == self.spec_registry().spec_default_order_type(),
            r.spec_registry().entries().len() == self.spec_registry().entries().len() + 1,
            r.spec_registry().entries().last().0 == "site"@,
            r.spec_registry().entries().last().1.validator.max_name_length == 100,
            r.spec_registry().entries().last().1.validator.max_description_length == 500,
            r.spec_registry().entries().last().1.validator.max_address_length == 200,
            r.spec_registry().entries().last().1.transformer.default_status
                == crate::models::SiteStatus::Planned,
            forall|i: int|
                0 <= i < self.spec_registry().entries().len() ==> #[trigger] r.spec_registry().entries()[i] == self.spec_registry().entries()[i],
    {
        self.with_processor(SiteOrderProcessor::new())
    }

    /// The finished service with an empty workflow store.
    pub fn build(self) -> (r: ExtensibleOrderService)
        ensures
            r.wf(),
            r.registry == self.spec_registry(),
            r.workflow_manager.entries() == Seq::<WorkflowView>::empty(),
    {
        ExtensibleOrderService::new(self.registry)
    }
}

} // verus!
