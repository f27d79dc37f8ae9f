//! The site order processor: validation, transformation and enrichment
//! for the `site` order type. The submission itself goes through the
//! resilient client outside this module.
use vstd::prelude::*;
use crate::enrichment::{EnrichmentData, ObjectEnricher, enrich_site_post};
use crate::errors::AppError;
use crate::plugin::{NetBoxResource, NetBoxResourceRequest, OrderPayload};
use crate::transformation::{OrderTransformer, transform_post};
use crate::validation::{OrderValidator, site_order_result, spec_validation_message};

verus! {

/// How request enrichment changes the payload: only the tags change,
/// gaining `netgate` and `enriched` at the end.
pub open spec fn enrich_request_post(
    b: crate::models::SiteRequestContent,
    a: crate::models::SiteRequestContent,
) -> bool {
    &&& a == (crate::models::SiteRequestContent { tags: a.tags, ..b })
    &&& a.tags matches Some(t2) && t2 == (match b.tags {
        Some(t) => t,
        None => Seq::<Seq<char>>::empty(),
    }) + seq!["netgate"@, "enriched"@]
}

/// The processor of `site` orders.
pub struct SiteOrderProcessor {
    pub validator: OrderValidator,
    pub transformer: OrderTransformer,
    pub enricher: ObjectEnricher,
}

impl SiteOrderProcessor {
    /// A processor with the default validation rules, transformer and
    /// enricher.
    pub fn new() -> (r: Self)
        ensures
            r.validator.max_name_length == 100,
            r.validator.max_description_length == 500,
            r.validator.max_address_length == 200,
            r.transformer.default_status == crate::models::SiteStatus::Planned,
    {
        SiteOrderProcessor {
            validator: OrderValidator::new(),
            transformer: OrderTransformer::new(),
            enricher: ObjectEnricher::new(),
        }
    }

    /// The order type this processor handles.
    pub fn order_type(&self) -> (r: &'static str)
        ensures
            r@ == "site"@,
    {
        "site"
    }

    /// Validate the order under the site rules; a rejection carries the
    /// rule's message.
    pub fn validate(&self, order: &OrderPayload) -> (r: Result<(), AppError>)
        ensures
            (order matches OrderPayload::Site(o) ==> (r is Ok <==> site_order_result(
                o@,
                self.validator.max_name_length as nat,
                self.validator.max_description_length as nat,
                self.validator.max_address_length as nat,
            ) is Ok)),
            r is Err ==> r matches Err(AppError::ValidationError(_)),
            r is Err ==> (match order {
                OrderPayload::Site(o) => site_order_result(
                    o@,
                    self.validator.max_name_length as nat,
                    self.validator.max_description_length as nat,
                    self.validator.max_address_length as nat,
                ) matches Err(ve) && (r matches Err(AppError::ValidationError(m)) && m@
                    == spec_validation_message(ve)),
            }),
    {
        match order {
            OrderPayload::Site(site_order) => {
                match self.validator.validate_site_order(site_order) {
                    Ok(()) => Ok(()),
                    Err(e) => Err(AppError::ValidationError(e.message())),
                }
            },
        }
    }

    /// Turn the order into the inventory's creation request.
    pub fn transform(&self, order: OrderPayload, tenant_id: Option<i32>) -> (r: Result<
        NetBoxResourceRequest,
        AppError,
    >)
        ensures
            r is Ok,
            (order matches OrderPayload::Site(o) ==> (r matches Ok(
                NetBoxResourceRequest::Site(req),
            ) && transform_post(o@, tenant_id, self.transformer.default_status, req@))),
    {
        match order {
            OrderPayload::Site(site_order) => {
                let request = self.transformer.transform_site_order(site_order, tenant_id);
                Ok(NetBoxResourceRequest::Site(request))
            },
        }
    }

    /// Mark the request as passed through the portal: the tags `netgate`
    /// and `enriched` are appended to whatever tags it carries.
    pub fn enrich_request(
        &self,
        request: &mut NetBoxResourceRequest,
        _enrichment_data: &EnrichmentData,
    ) -> (r: Result<(), AppError>)
        ensures
            r is Ok,
            (*final(request)) matches NetBoxResourceRequest::Site(req2) && ((*old(request))
                matches NetBoxResourceRequest::Site(req) && enrich_request_post(req@, req2@)),
    {
        match request {
            NetBoxResourceRequest::Site(site_request) => {
                let mut tags = match site_request.tags.take() {
                    Some(t) => t,
                    None => Vec::new(),
                };
                let ghost base = tags.deep_view();
                proof {
                    let reqv = (*old(request))->Site_0;
                    if reqv@.tags is None {
                        assert(base =~= Seq::<Seq<char>>::empty());
                    }
                }
                tags.push(String::from_str("netgate"));
                tags.push(String::from_str("enriched"));
                proof {
                    assert(tags.deep_view() =~= base + seq!["netgate"@, "enriched"@]);
                }
                site_request.tags = Some(tags);
                Ok(())
            },
        }
    }

    /// Enrich the created resource.
    pub fn enrich_resource(&self, resource: NetBoxResource, enrichment_data: &EnrichmentData) -> (r:
        NetBoxResource)
        ensures
            (resource matches NetBoxResource::Site(s) ==> (r matches NetBoxResource::Site(s2)
                && enrich_site_post(s@, enrichment_data@, self.enricher@, s2@))),
    {
        match resource {
            NetBoxResource::Site(site) => {
                let enriched = self.enricher.enrich_site(site, enrichment_data);
                NetBoxResource::Site(enriched)
            },
        }
    }
}

} // verus!
