//! The requests that a resolution asks its driver to send.
use crate::consumer::ConsumerRelease;
use crate::enterprise::EnterpriseRelease;
use crate::evalcenter::{evalcenter_url, evalcenter_url_text};
use crate::session::SessionContext;
use vstd::prelude::*;

verus! {

/// Which of the vendor's two generations of endpoints a resolution talks to.
/// The older one answers with pages of markup, the newer one with documents
/// that the driver decodes.
#[derive(Debug, Clone, Copy, PartialEq, Eq, Structural)]
pub enum ResponseFormat {
    Legacy,
    Current,
}

/// The method of a request.
#[derive(Debug, Clone, Copy, PartialEq, Eq, Structural)]
pub enum Method {
    Get,
    Post,
}

/// A request for the driver to send: the method, the address, and the three
/// headers that the vendor looks at. `empty_accept` asks for an `Accept`
/// header without a value.
#[derive(Debug, Clone, PartialEq, Eq)]
pub struct HttpRequest {
    pub method: Method,
    pub url: String,
    pub user_agent: Option<String>,
    pub empty_accept: bool,
    pub referer: Option<String>,
}

/// A request, with texts in place of strings.
pub struct HttpRequestView {
    pub method: Method,
    pub url: Seq<char>,
    pub user_agent: Option<Seq<char>>,
    pub empty_accept: bool,
    pub referer: Option<Seq<char>>,
}

/// The text of an optional string.
pub open spec fn optional_string_text(s: Option<String>) -> Option<Seq<char>> {
    match s {
        Some(text) => Some(text@),
        None => None,
    }
}

impl View for HttpRequest {
    type V = HttpRequestView;

    open spec fn view(&self) -> HttpRequestView {
        HttpRequestView {
            method: self.method,
            url: self.url@,
            user_agent: optional_string_text(self.user_agent),
            empty_accept: self.empty_accept,
            referer: optional_string_text(self.referer),
        }
    }
}

/// The address of the vendor's probe against automation for a session.
pub open spec fn probe_url_text(session_id: Seq<char>) -> Seq<char> {
    "https://vlscppe.microsoft.com/tags?org_id=y6jn8c31&session_id="@ + session_id
}

/// The address that lists the stock-keeping units of a product.
pub open spec fn sku_url_text(
    format: ResponseFormat,
    release: ConsumerRelease,
    product_id: Seq<char>,
    session_id: Seq<char>,
) -> Seq<char> {
    match format {
        ResponseFormat::Current => "https://www.microsoft.com/software-download-connector/api/getskuinformationbyproductedition?profile=606624d44113&ProductEditionId="@
            + product_id + "&SKU=undefined&friendlyFileName=undefined&Locale=en-US&sessionID="@
            + session_id,
        ResponseFormat::Legacy => "https://www.microsoft.com/en-US/api/controls/contentinclude/html?pageId=a8f8f489-4c7f-463a-9ca6-5cff94d8d041&host=www.microsoft.com&segments=software-download,"@
            + release.segment_text()
            + "&query=&action=getskuinformationbyproductedition&sessionId="@ + session_id
            + "&productEditionId="@ + product_id + "&sdVersion=2"@,
    }
}

/// The address that lists the download links of a stock-keeping unit.
pub open spec fn link_url_text(
    format: ResponseFormat,
    release: ConsumerRelease,
    sku_id: Seq<char>,
    session_id: Seq<char>,
) -> Seq<char> {
    match format {
        ResponseFormat::Current => "https://www.microsoft.com/software-download-connector/api/GetProductDownloadLinksBySku?profile=606624d44113&productEditionId=undefined&SKU="@
            + sku_id + "&friendlyFileName=undefined&Locale=en-US&sessionID="@ + session_id,
        ResponseFormat::Legacy => "https://www.microsoft.com/en-US/api/controls/contentinclude/html?pageId=6e2a1789-ef16-4f27-a296-74ef7ef5d96b&host=www.microsoft.com&segments=software-download,"@
            + release.segment_text() + "&query=&action=GetProductDownloadLinksBySku&sessionId="@
            + session_id + "&skuId="@ + sku_id + "&language=English&sdVersion=2"@,
    }
}

/// The request for the catalogue page of a release.
pub open spec fn catalog_request(release: ConsumerRelease, user_agent: Seq<char>) -> HttpRequestView {
    HttpRequestView {
        method: Method::Get,
        url: release.catalog_url_text(),
        user_agent: Some(user_agent),
        empty_accept: true,
        referer: None,
    }
}

/// The probe that the vendor expects before it answers the later requests.
pub open spec fn probe_request(user_agent: Seq<char>, session_id: Seq<char>) -> HttpRequestView {
    HttpRequestView {
        method: Method::Get,
        url: probe_url_text(session_id),
        user_agent: Some(user_agent),
        empty_accept: true,
        referer: None,
    }
}

/// The request for the stock-keeping units of a product. The older endpoint
/// takes a `POST` with the session's headers, the newer one a plain `GET`.
pub open spec fn sku_request(
    format: ResponseFormat,
    release: ConsumerRelease,
    product_id: Seq<char>,
    user_agent: Seq<char>,
    session_id: Seq<char>,
) -> HttpRequestView {
    match format {
        ResponseFormat::Current => HttpRequestView {
            method: Method::Get,
            url: sku_url_text(format, release, product_id, session_id),
            user_agent: None,
            empty_accept: false,
            referer: None,
        },
        ResponseFormat::Legacy => HttpRequestView {
            method: Method::Post,
            url: sku_url_text(format, release, product_id, session_id),
            user_agent: Some(user_agent),
            empty_accept: true,
            referer: None,
        },
    }
}

/// The request for the download links of a stock-keeping unit. Both
/// endpoints are told the page that the request comes from.
pub open spec fn link_request(
    format: ResponseFormat,
    release: ConsumerRelease,
    sku_id: Seq<char>,
    referer: Seq<char>,
    user_agent: Seq<char>,
    session_id: Seq<char>,
) -> HttpRequestView {
    match format {
        ResponseFormat::Current => HttpRequestView {
            method: Method::Get,
            url: link_url_text(format, release, sku_id, session_id),
            user_agent: None,
            empty_accept: false,
            referer: Some(referer),
        },
        ResponseFormat::Legacy => HttpRequestView {
            method: Method::Post,
            url: link_url_text(format, release, sku_id, session_id),
            user_agent: Some(user_agent),
            empty_accept: true,
            referer: Some(referer),
        },
    }
}

/// The request for the page of a release in the evaluation centre.
pub open spec fn evalcenter_request(release: EnterpriseRelease) -> HttpRequestView {
    HttpRequestView {
        method: Method::Get,
        url: evalcenter_url_text(release),
        user_agent: None,
        empty_accept: false,
        referer: None,
    }
}

impl HttpRequest {
    /// The request for the catalogue page of a release.
    pub fn catalog(release: ConsumerRelease, session: &SessionContext) -> (r: Self)
        ensures
            r@ == catalog_request(release, session.user_agent@),
    {
        HttpRequest {
            method: Method::Get,
            url: String::from_str(release.catalog_url()),
            user_agent: Some(session.user_agent.clone()),
            empty_accept: true,
            referer: None,
        }
    }

    /// The probe that the vendor expects before it answers the later
    /// requests.
    pub fn probe(session: &SessionContext) -> (r: Self)
        ensures
            r@ == probe_request(session.user_agent@, session.session_id@),
    {
        let mut url = String::from_str(
            "https://vlscppe.microsoft.com/tags?org_id=y6jn8c31&session_id=",
        );
        url.append(session.session_id.as_str());
        HttpRequest {
            method: Method::Get,
            url,
            user_agent: Some(session.user_agent.clone()),
            empty_accept: true,
            referer: None,
        }
    }

    /// The request for the stock-keeping units of a product.
    pub fn skus(
        format: ResponseFormat,
        release: ConsumerRelease,
        product_id: &str,
        session: &SessionContext,
    ) -> (r: Self)
        ensures
            r@ == sku_request(
                format,
                release,
                product_id@,
                session.user_agent@,
                session.session_id@,
            ),
    {
        match format {
            ResponseFormat::Current => {
                let mut url = String::from_str(
                    "https://www.microsoft.com/software-download-connector/api/getskuinformationbyproductedition?profile=606624d44113&ProductEditionId=",
                );
                url.append(product_id);
                url.append("&SKU=undefined&friendlyFileName=undefined&Locale=en-US&sessionID=");
                url.append(session.session_id.as_str());
                HttpRequest {
                    method: Method::Get,
                    url,
                    user_agent: None,
                    empty_accept: false,
                    referer: None,
                }
            },
            ResponseFormat::Legacy => {
                let mut url = String::from_str(
                    "https://www.microsoft.com/en-US/api/controls/contentinclude/html?pageId=a8f8f489-4c7f-463a-9ca6-5cff94d8d041&host=www.microsoft.com&segments=software-download,",
                );
                url.append(release.segment());
                url.append("&query=&action=getskuinformationbyproductedition&sessionId=");
                url.append(session.session_id.as_str());
                url.append("&productEditionId=");
                url.append(product_id);
                url.append("&sdVersion=2");
                HttpRequest {
                    method: Method::Post,
                    url,
                    user_agent: Some(session.user_agent.clone()),
                    empty_accept: true,
                    referer: None,
                }
            },
        }
    }

    /// The request for the download links of a stock-keeping unit.
    pub fn links(
        format: ResponseFormat,
        release: ConsumerRelease,
        sku_id: &str,
        referer: String,
        session: &SessionContext,
    ) -> (r: Self)
        ensures
            r@ == link_request(
                format,
                release,
                sku_id@,
                referer@,
                session.user_agent@,
                session.session_id@,
            ),
    {
        match format {
            ResponseFormat::Current => {
                let mut url = String::from_str(
                    "https://www.microsoft.com/software-download-connector/api/GetProductDownloadLinksBySku?profile=606624d44113&productEditionId=undefined&SKU=",
                );
                url.append(sku_id);
                url.append("&friendlyFileName=undefined&Locale=en-US&sessionID=");
                url.append(session.session_id.as_str());
                HttpRequest {
                    method: Method::Get,
                    url,
                    user_agent: None,
                    empty_accept: false,
                    referer: Some(referer),
                }
            },
            ResponseFormat::Legacy => {
                let mut url = String::from_str(
                    "https://www.microsoft.com/en-US/api/controls/contentinclude/html?pageId=6e2a1789-ef16-4f27-a296-74ef7ef5d96b&host=www.microsoft.com&segments=software-download,",
                );
                url.append(release.segment());
                url.append("&query=&action=GetProductDownloadLinksBySku&sessionId=");
                url.append(session.session_id.as_str());
                url.append("&skuId=");
                url.append(sku_id);
                url.append("&language=English&sdVersion=2");
                HttpRequest {
                    method: Method::Post,
                    url,
                    user_agent: Some(session.user_agent.clone()),
                    empty_accept: true,
                    referer: Some(referer),
                }
            },
        }
    }

    /// The request for the page of a release in the evaluation centre.
    pub fn evalcenter(release: EnterpriseRelease) -> (r: Self)
        ensures
            r@ == evalcenter_request(release),
    {
        HttpRequest {
            method: Method::Get,
            url: evalcenter_url(release),
            user_agent: None,
            empty_accept: false,
            referer: None,
        }
    }
}

} // verus!
