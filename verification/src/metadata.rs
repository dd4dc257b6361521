//! Object metadata carried beside the byte stream, and its mapping to
//! response headers.

use vstd::prelude::*;

verus! {

/// What the backend reports about an object. A field the backend did not
/// report stays `None` and is never defaulted to a guessed value.
pub struct ObjectMetadata {
    pub content_type: Option<String>,
    pub content_disposition: Option<String>,
    pub accept_ranges: Option<String>,
}

/// The mathematical shape of `ObjectMetadata`.
pub struct MetadataView {
    pub content_type: Option<Seq<char>>,
    pub content_disposition: Option<Seq<char>>,
    pub accept_ranges: Option<Seq<char>>,
}

impl View for ObjectMetadata {
    type V = MetadataView;

    open spec fn view(&self) -> MetadataView {
        MetadataView {
            content_type: match self.content_type {
                Some(s) => Some(s@),
                None => None,
            },
            content_disposition: match self.content_disposition {
                Some(s) => Some(s@),
                None => None,
            },
            accept_ranges: match self.accept_ranges {
                Some(s) => Some(s@),
                None => None,
            },
        }
    }
}

/// Name of the content-type response header.
pub open spec fn spec_content_type_name() -> Seq<char> {
    "content-type"@
}

/// Name of the content-disposition response header.
pub open spec fn spec_content_disposition_name() -> Seq<char> {
    "content-disposition"@
}

/// Name of the accept-ranges response header.
pub open spec fn spec_accept_ranges_name() -> Seq<char> {
    "accept-ranges"@
}

/// The response headers owed to a successful fetch: one header per metadata
/// field the backend reported, in a fixed order, and none for an absent
/// field — an absent field is omitted, never sent empty.
pub open spec fn header_entries(m: MetadataView) -> Seq<(Seq<char>, Seq<char>)> {
    let ct: Seq<(Seq<char>, Seq<char>)> = match m.content_type {
        Some(v) => seq![(spec_content_type_name(), v)],
        None => Seq::empty(),
    };
    let cd: Seq<(Seq<char>, Seq<char>)> = match m.content_disposition {
        Some(v) => seq![(spec_content_disposition_name(), v)],
        None => Seq::empty(),
    };
    let ar: Seq<(Seq<char>, Seq<char>)> = match m.accept_ranges {
        Some(v) => seq![(spec_accept_ranges_name(), v)],
        None => Seq::empty(),
    };
    ct + cd + ar
}

/// A metadata field the backend did not report leaves no trace: with the
/// content disposition absent, no header of that name stands in the list —
/// it is omitted outright, not sent with an empty value.
pub proof fn lemma_absent_disposition_omitted(m: MetadataView)
    requires
        m.content_disposition is None,
    ensures
        forall|i: int|
            0 <= i < header_entries(m).len() ==> (#[trigger] header_entries(m)[i]).0
                != spec_content_disposition_name(),
{
    reveal_strlit("content-type");
    reveal_strlit("content-disposition");
    reveal_strlit("accept-ranges");
    assert forall|i: int| 0 <= i < header_entries(m).len() implies (#[trigger] header_entries(
        m,
    )[i]).0 != spec_content_disposition_name() by {
        assert(header_entries(m)[i].0 == spec_content_type_name() || header_entries(m)[i].0
            == spec_accept_ranges_name());
        assert(spec_content_type_name().len() == 12);
        assert(spec_accept_ranges_name().len() == 13);
        assert(spec_content_disposition_name().len() == 19);
    }
}

/// A metadata field the backend did report is passed through: the header of
/// that name stands in the list with the reported value, unchanged.
pub proof fn lemma_present_disposition_passed_through(m: MetadataView)
    requires
        m.content_disposition is Some,
    ensures
        header_entries(m).contains(
            (spec_content_disposition_name(), m.content_disposition->0),
        ),
{
    let entry = (spec_content_disposition_name(), m.content_disposition->0);
    if m.content_type is Some {
        assert(header_entries(m)[1] == entry);
    } else {
        assert(header_entries(m)[0] == entry);
    }
}

/// Builds the header list for a successful response from the metadata,
/// copying each present value through unchanged.
pub fn response_headers(m: &ObjectMetadata) -> (h: Vec<(String, String)>)
    ensures
        h@.map_values(|p: (String, String)| (p.0@, p.1@)) == header_entries(m@),
{
    let mut h: Vec<(String, String)> = Vec::new();
    if let Some(v) = &m.content_type {
        h.push(("content-type".to_owned(), v.clone()));
    }
    if let Some(v) = &m.content_disposition {
        h.push(("content-disposition".to_owned(), v.clone()));
    }
    if let Some(v) = &m.accept_ranges {
        h.push(("accept-ranges".to_owned(), v.clone()));
    }
    proof {
        assert(h@.map_values(|p: (String, String)| (p.0@, p.1@)) =~= header_entries(m@));
    }
    h
}

} // verus!
