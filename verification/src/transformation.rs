//! Turning a validated site order into the inventory's creation payload,
//! with a URL-friendly slug derived from the name.
use vstd::prelude::*;
use crate::domain::{CreateSiteOrder, clone_opt_string};
use crate::models::{CreateSiteRequest, SiteRequestContent, SiteStatus};
use crate::strutil::{lower_char, string_from_chars, chars_of, insert_tag, strictly_sorted};

verus! {

/// A character mapped for the slug: lower-case letters and digits stay,
/// everything else becomes a dash.
pub open spec fn slug_char(c: char) -> char {
    let l = lower_char(c);
    if ('a' <= l && l <= 'z') || ('0' <= l && l <= '9') {
        l
    } else {
        '-'
    }
}

/// Folding the mapped characters into a slug: runs of dashes collapse
/// into single separators, and leading and trailing dashes are dropped.
pub open spec fn slug_fold(s: Seq<char>, i: int, acc: Seq<char>, pending: bool) -> Seq<char>
    decreases s.len() - i,
{
    if i < 0 || i >= s.len() {
        acc
    } else if slug_char(s[i]) != '-' {
        slug_fold(
            s,
            i + 1,
            if pending && acc.len() > 0 {
                acc + seq!['-'] + seq![slug_char(s[i])]
            } else {
                acc + seq![slug_char(s[i])]
            },
            false,
        )
    } else {
        slug_fold(s, i + 1, acc, true)
    }
}

/// The slug of a name: mapped characters, collapsed separators, and at
/// most fifty characters.
pub open spec fn slug_spec(name: Seq<char>) -> Seq<char> {
    let full = slug_fold(name, 0, Seq::empty(), false);
    if full.len() <= 50 {
        full
    } else {
        full.take(50)
    }
}

/// Compute the slug of a name.
pub fn generate_slug(name: &str) -> (r: String)
    ensures
        r@ == slug_spec(name@),
{
    let cs = chars_of(name);
    let n = cs.len();
    let mut out: Vec<char> = Vec::new();
    let mut pending: bool = false;
    let mut i: usize = 0;
    while i < n
        invariant
            n == cs@.len(),
            cs@ == name@,
            i <= n,
            slug_fold(name@, i as int, out@, pending) == slug_fold(
                name@,
                0,
                Seq::empty(),
                false,
            ),
        decreases n - i,
    {
        let c = cs[i];
        let lc: char = if c >= 'A' && c <= 'Z' {
            (((c as u8) + 32) as char)
        } else {
            c
        };
        let mapped: char = if (lc >= 'a' && lc <= 'z') || (lc >= '0' && lc <= '9') {
            lc
        } else {
            '-'
        };
        proof {
            assert(mapped == slug_char(name@[i as int]));
        }
        let ghost prev = out@;
        if mapped != '-' {
            if pending && out.len() > 0 {
                out.push('-');
                out.push(mapped);
                proof {
                    assert(out@ =~= prev + seq!['-'] + seq![mapped]);
                }
            } else {
                out.push(mapped);
                proof {
                    assert(out@ =~= prev + seq![mapped]);
                }
            }
            pending = false;
        } else {
            pending = true;
        }
        i += 1;
    }
    if out.len() > 50 {
        out.truncate(50);
    }
    string_from_chars(&out)
}

/// Data that enriches a site-creation request before submission.
#[derive(Debug)]
pub struct SiteEnrichmentData {
    pub region_id: Option<i32>,
    pub facility: Option<String>,
    pub contact_name: Option<String>,
    pub contact_email: Option<String>,
    pub contact_phone: Option<String>,
    pub tags: Option<Vec<String>>,
}

/// The mathematical content of the request enrichment data.
pub struct SiteEnrichmentContent {
    pub region_id: Option<i32>,
    pub facility: Option<Seq<char>>,
    pub contact_name: Option<Seq<char>>,
    pub contact_email: Option<Seq<char>>,
    pub contact_phone: Option<Seq<char>>,
    pub tags: Option<Seq<Seq<char>>>,
}

impl View for SiteEnrichmentData {
    type V = SiteEnrichmentContent;

    open spec fn view(&self) -> SiteEnrichmentContent {
        SiteEnrichmentContent {
            region_id: self.region_id,
            facility: self.facility.deep_view(),
            contact_name: self.contact_name.deep_view(),
            contact_email: self.contact_email.deep_view(),
            contact_phone: self.contact_phone.deep_view(),
            tags: crate::models::tags_view(self.tags),
        }
    }
}

impl Default for SiteEnrichmentData {
    /// Enrichment data with nothing set.
    fn default() -> (r: Self)
        ensures
            r@.region_id is None,
            r@.facility is None,
            r@.contact_name is None,
            r@.contact_email is None,
            r@.contact_phone is None,
            r@.tags is None,
    {
        SiteEnrichmentData {
            region_id: None,
            facility: None,
            contact_name: None,
            contact_email: None,
            contact_phone: None,
            tags: None,
        }
    }
}

/// Turns site orders into inventory creation payloads.
#[derive(Debug, Clone, Copy)]
pub struct OrderTransformer {
    pub default_status: SiteStatus,
}

/// What the transformed request holds, given the order, the tenant and
/// the default status: the trimmed-down payload with the computed slug,
/// the address in both address fields, a fixed comment, and the portal's
/// two tags.
pub open spec fn transform_post(
    o: crate::domain::OrderContent,
    tenant_id: Option<i32>,
    status: SiteStatus,
    r: SiteRequestContent,
) -> bool {
    &&& r.name == o.name
    &&& r.slug == Some(slug_spec(o.name))
    &&& r.description == o.description
    &&& r.status == Some(status)
    &&& r.region is None
    &&& r.tenant == tenant_id
    &&& r.facility is None
    &&& r.physical_address == o.address
    &&& r.shipping_address == o.address
    &&& r.latitude is None
    &&& r.longitude is None
    &&& r.contact_name is None
    &&& r.contact_phone is None
    &&& r.contact_email is None
    &&& r.comments == Some("Created via NetGate order portal"@)
    &&& r.tags matches Some(t) && t.len() == 2 && t[0] == "netgate"@ && t[1] == "order-portal"@
}

impl OrderTransformer {
    /// A transformer that marks new sites as Planned.
    pub fn new() -> (r: Self)
        ensures
            r.default_status == SiteStatus::Planned,
    {
        OrderTransformer { default_status: SiteStatus::Planned }
    }

    /// A transformer with a custom default status.
    pub fn with_default_status(status: SiteStatus) -> (r: Self)
        ensures
            r.default_status == status,
    {
        OrderTransformer { default_status: status }
    }

    /// Build the inventory payload out of a site order.
    pub fn transform_site_order(&self, order: CreateSiteOrder, tenant_id: Option<i32>) -> (r:
        CreateSiteRequest)
        ensures
            transform_post(order@, tenant_id, self.default_status, r@),
    {
        let slug = generate_slug(order.name.as_str());
        let mut tags: Vec<String> = Vec::new();
        tags.push(String::from_str("netgate"));
        tags.push(String::from_str("order-portal"));
        CreateSiteRequest {
            name: order.name.clone(),
            slug: Some(slug),
            description: clone_opt_string(&order.description),
            status: Some(self.default_status),
            region: None,
            tenant: tenant_id,
            facility: None,
            physical_address: clone_opt_string(&order.address),
            shipping_address: clone_opt_string(&order.address),
            latitude: None,
            longitude: None,
            contact_name: None,
            contact_phone: None,
            contact_email: None,
            comments: Some(String::from_str("Created via NetGate order portal")),
            tags: Some(tags),
        }
    }

    /// Overlay the enrichment data on a request: region, facility and
    /// contact fields are taken from the enrichment when present, and
    /// the enrichment tags are merged into the request's tags, sorted
    /// and without duplicates.
    pub fn enrich_site_request(
        &self,
        request: CreateSiteRequest,
        enrichment_data: &SiteEnrichmentData,
    ) -> (r: CreateSiteRequest)
        ensures
            r@.name == request@.name,
            r@.slug == request@.slug,
            r@.description == request@.description,
            r@.status == request@.status,
            r@.tenant == request@.tenant,
            r@.physical_address == request@.physical_address,
            r@.shipping_address == request@.shipping_address,
            r@.latitude == request@.latitude,
            r@.longitude == request@.longitude,
            r@.comments == request@.comments,
            r@.region == (if enrichment_data@.region_id is Some {
                enrichment_data@.region_id
            } else {
                request@.region
            }),
            r@.facility == (if enrichment_data@.facility is Some {
                enrichment_data@.facility
            } else {
                request@.facility
            }),
            r@.contact_name == (if enrichment_data@.contact_name is Some {
                enrichment_data@.contact_name
            } else {
                request@.contact_name
            }),
            r@.contact_email == (if enrichment_data@.contact_email is Some {
                enrichment_data@.contact_email
            } else {
                request@.contact_email
            }),
            r@.contact_phone == (if enrichment_data@.contact_phone is Some {
                enrichment_data@.contact_phone
            } else {
                request@.contact_phone
            }),
            enrichment_data@.tags is None ==> r@.tags == request@.tags,
            enrichment_data@.tags matches Some(et) ==> r@.tags matches Some(rt)
                && strictly_sorted(rt) && (forall|e: Seq<char>| #[trigger]
                rt.contains(e) <==> ((request@.tags matches Some(bt) && bt.contains(e))
                    || et.contains(e))),
    {
        let mut request = request;
        if let Some(region) = &enrichment_data.region_id {
            request.region = Some(*region);
        }
        if let Some(facility) = &enrichment_data.facility {
            request.facility = Some(facility.clone());
        }
        if let Some(contact) = &enrichment_data.contact_name {
            request.contact_name = Some(contact.clone());
        }
        if let Some(email) = &enrichment_data.contact_email {
            request.contact_email = Some(email.clone());
        }
        if let Some(phone) = &enrichment_data.contact_phone {
            request.contact_phone = Some(phone.clone());
        }
        if let Some(enrichment_tags) = &enrichment_data.tags {
            let base = match request.tags.take() {
                Some(t) => t,
                None => Vec::new(),
            };
            let ghost base_view = base.deep_view();
            let ghost et_view = enrichment_tags.deep_view();
            let mut merged: Vec<String> = Vec::new();
            let mut i: usize = 0;
            while i < base.len()
                invariant
                    i <= base@.len(),
                    base.deep_view() == base_view,
                    strictly_sorted(merged.deep_view()),
                    forall|e: Seq<char>| #[trigger]
                        merged.deep_view().contains(e) <==> base_view.take(i as int).contains(e),
                decreases base@.len() - i,
            {
                let t = base[i].clone();
                let ghost pre = merged.deep_view();
                insert_tag(&mut merged, t);
                proof {
                    let t1 = base_view.take(i + 1);
                    let t0 = base_view.take(i as int);
                    assert forall|e: Seq<char>| #[trigger] merged.deep_view().contains(e) implies t1.contains(
                        e,
                    ) by {
                        if pre.contains(e) {
                            let m = choose|m: int| 0 <= m < t0.len() && t0[m] == e;
                            assert(t1[m] == e);
                        } else {
                            assert(t1[i as int] == e);
                        }
                    }
                    assert forall|e: Seq<char>| #[trigger] t1.contains(e) implies merged.deep_view().contains(
                        e,
                    ) by {
                        let m = choose|m: int| 0 <= m < t1.len() && t1[m] == e;
                        if m < i as int {
                            assert(t0[m] == e);
                        } else {
                            assert(e == base_view[i as int]);
                        }
                    }
                }
                i += 1;
            }
            proof {
                assert(base_view.take(base_view.len() as int) =~= base_view);
            }
            let mut j: usize = 0;
            while j < enrichment_tags.len()
                invariant
                    j <= et_view.len(),
                    enrichment_tags.deep_view() == et_view,
                    strictly_sorted(merged.deep_view()),
                    forall|e: Seq<char>| #[trigger]
                        merged.deep_view().contains(e) <==> (base_view.contains(e)
                            || et_view.take(j as int).contains(e)),
                decreases et_view.len() - j,
            {
                let t = enrichment_tags[j].clone();
                let ghost pre = merged.deep_view();
                insert_tag(&mut merged, t);
                proof {
                    let t1 = et_view.take(j + 1);
                    let t0 = et_view.take(j as int);
                    assert forall|e: Seq<char>| #[trigger] merged.deep_view().contains(e) implies (
                    base_view.contains(e) || t1.contains(e)) by {
                        if pre.contains(e) {
                            if t0.contains(e) {
                                let m = choose|m: int| 0 <= m < t0.len() && t0[m] == e;
                                assert(t1[m] == e);
                            }
                        } else {
                            assert(t1[j as int] == e);
                        }
                    }
                    assert forall|e: Seq<char>| base_view.contains(e) || #[trigger] t1.contains(e)
                        implies merged.deep_view().contains(e) by {
                        if t1.contains(e) {
                            let m = choose|m: int| 0 <= m < t1.len() && t1[m] == e;
                            if m < j as int {
                                assert(t0[m] == e);
                            } else {
                                assert(e == et_view[j as int]);
                            }
                        }
                    }
                }
                j += 1;
            }
            proof {
                assert(et_view.take(et_view.len() as int) =~= et_view);
            }
            request.tags = Some(merged);
        }
        request
    }
}

} // verus!
