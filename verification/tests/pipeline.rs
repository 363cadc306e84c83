use rido::{
    Action, ConsumerLanguage, ConsumerRelease, Document, EnterpriseLanguage, EnterpriseRelease, Event,
    HttpRequest, Method, Resolution, ResponseFormat, RidoError, SessionContext, Stage,
    WindowsArchitecture, WindowsData, WindowsEntry, WindowsLanguage, WindowsRelease, WindowsSku,
};

const AGENT: &str = "Mozilla 5.0 (X11, Linux x86_64; rv:124.0) Gecko/20100101 Firefox/124.0";
const ID: &str = "0a1b2c3d-0000-4000-8000-00000000abcd";

fn session() -> SessionContext {
    SessionContext::with_id(1710806400, ID.to_string())
}

fn consumer(release: ConsumerRelease, lang: ConsumerLanguage, arch: WindowsArchitecture) -> WindowsEntry {
    WindowsEntry { release: WindowsRelease::Consumer(release), arch, lang: WindowsLanguage::Consumer(lang) }
}

fn enterprise(release: EnterpriseRelease, lang: EnterpriseLanguage, arch: WindowsArchitecture) -> WindowsEntry {
    WindowsEntry { release: WindowsRelease::Enterprise(release), arch, lang: WindowsLanguage::Enterprise(lang) }
}

fn sku(name: &str, id: &str, language: &str) -> WindowsSku {
    WindowsSku {
        product_display_name: name.to_string(),
        id: id.to_string(),
        localized_language: language.to_string(),
    }
}

fn body(text: &str) -> Event {
    Event::Body(text.to_string())
}

const CATALOG_PAGE: &str = "<select><option value=\"\">Select Download</option>\
                            <option value=\"2618\">Windows 10 (multi-edition ISO)</option></select>";

#[test]
fn resolution_of_windows_10_runs_through_four_stages() {
    let entry = consumer(ConsumerRelease::Ten, ConsumerLanguage::EnglishUS, WindowsArchitecture::x86_64);
    let (resolution, action) = Resolution::begin(entry, ResponseFormat::Current, session());
    assert_eq!(resolution.stage, Stage::NotStarted);
    assert_eq!(
        action,
        Action::Send(HttpRequest {
            method: Method::Get,
            url: "https://microsoft.com/en-us/software-download/windows10ISO".to_string(),
            user_agent: Some(AGENT.to_string()),
            empty_accept: true,
            referer: None,
        })
    );

    let (resolution, action) = resolution.step(body(CATALOG_PAGE));
    assert_eq!(resolution.stage, Stage::ProductResolved("2618".to_string()));
    assert_eq!(
        action,
        Action::Send(HttpRequest {
            method: Method::Get,
            url: format!("https://vlscppe.microsoft.com/tags?org_id=y6jn8c31&session_id={ID}"),
            user_agent: Some(AGENT.to_string()),
            empty_accept: true,
            referer: None,
        })
    );

    let (resolution, action) = resolution.step(body("whatever the probe answers"));
    assert_eq!(resolution.stage, Stage::Probed("2618".to_string()));
    assert_eq!(
        action,
        Action::Send(HttpRequest {
            method: Method::Get,
            url: format!(
                "https://www.microsoft.com/software-download-connector/api/getskuinformationbyproductedition?profile=606624d44113&ProductEditionId=2618&SKU=undefined&friendlyFileName=undefined&Locale=en-US&sessionID={ID}"
            ),
            user_agent: None,
            empty_accept: false,
            referer: None,
        })
    );

    let document = "{\"Skus\":[]}";
    let (resolution, action) = resolution.step(body(document));
    assert_eq!(resolution.stage, Stage::Probed("2618".to_string()));
    assert_eq!(action, Action::Decode(Document::Skus, document.to_string()));

    let (resolution, action) = resolution.step(Event::Skus(vec![
        sku("Windows 10 22H2", "18460", "English International"),
        sku("Windows 10 22H2", "18461", "English (United States)"),
    ]));
    assert_eq!(resolution.stage, Stage::SkuResolved("18461".to_string()));
    assert_eq!(
        action,
        Action::Send(HttpRequest {
            method: Method::Get,
            url: format!(
                "https://www.microsoft.com/software-download-connector/api/GetProductDownloadLinksBySku?profile=606624d44113&productEditionId=undefined&SKU=18461&friendlyFileName=undefined&Locale=en-US&sessionID={ID}"
            ),
            user_agent: None,
            empty_accept: false,
            referer: Some("https://microsoft.com/en-us/software-download/windows10ISO".to_string()),
        })
    );

    let document = "{\"ProductDownloadOptions\":[]}";
    let (resolution, action) = resolution.step(body(document));
    assert_eq!(resolution.stage, Stage::SkuResolved("18461".to_string()));
    assert_eq!(action, Action::Decode(Document::Links, document.to_string()));

    let (resolution, action) = resolution.step(Event::Links(vec![
        "https://software.download.prss.microsoft.com/dbazure/Win10_22H2_English_x32v1.iso?t=one".to_string(),
        "https://software.download.prss.microsoft.com/dbazure/Win10_22H2_English_x64v1.iso?t=two&amp;P1=3".to_string(),
    ]));
    assert_eq!(action, Action::Finish);
    assert_eq!(
        resolution.finish(),
        Some(Ok(WindowsData {
            info: entry,
            url: "https://software.download.prss.microsoft.com/dbazure/Win10_22H2_English_x64v1.iso?t=two&P1=3"
                .to_string(),
            hash: None,
        }))
    );
}

#[test]
fn windows_11_for_32_bit_fails_before_anything_is_sent() {
    let entry = consumer(ConsumerRelease::Eleven, ConsumerLanguage::EnglishUS, WindowsArchitecture::i686);
    for format in [ResponseFormat::Current, ResponseFormat::Legacy] {
        let (resolution, action) = Resolution::begin(entry, format, session());
        assert_eq!(action, Action::Finish);
        assert_eq!(
            resolution.stage,
            Stage::Failed(RidoError::InvalidArchitecture(entry.release, WindowsArchitecture::i686))
        );
        let (resolution, action) = resolution.step(body(CATALOG_PAGE));
        assert_eq!(action, Action::Finish);
        assert_eq!(
            resolution.finish(),
            Some(Err(RidoError::InvalidArchitecture(entry.release, WindowsArchitecture::i686)))
        );
    }
}

#[test]
fn refused_requests_send_nothing() {
    let mixed = WindowsEntry {
        release: WindowsRelease::Enterprise(EnterpriseRelease::Server2022),
        arch: WindowsArchitecture::x86_64,
        lang: WindowsLanguage::Consumer(ConsumerLanguage::French),
    };
    let (resolution, action) = Resolution::begin(mixed, ResponseFormat::Current, session());
    assert_eq!(action, Action::Finish);
    assert_eq!(resolution.stage, Stage::Failed(RidoError::InvalidSelection));

    let russian = enterprise(EnterpriseRelease::TenLtsc, EnterpriseLanguage::Russian, WindowsArchitecture::x86_64);
    let (resolution, action) = Resolution::begin(russian, ResponseFormat::Current, session());
    assert_eq!(action, Action::Finish);
    assert_eq!(resolution.stage, Stage::Failed(RidoError::InvalidLanguage(russian.release, russian.lang)));

    // a resolution that was put together by hand for a refused request fails at its next step
    let resolution = Resolution {
        entry: mixed,
        format: ResponseFormat::Current,
        session: session(),
        stage: Stage::Probed("1".to_string()),
    };
    let (resolution, action) = resolution.step(body("x"));
    assert_eq!(action, Action::Finish);
    assert_eq!(resolution.stage, Stage::Failed(RidoError::InvalidSelection));
}

#[test]
fn product_number_skips_the_catalogue_page() {
    let entry = consumer(ConsumerRelease::CustomProductID(3113), ConsumerLanguage::French, WindowsArchitecture::x86_64);
    let (resolution, action) = Resolution::begin(entry, ResponseFormat::Current, session());
    assert_eq!(resolution.stage, Stage::ProductResolved("3113".to_string()));
    assert_eq!(
        action,
        Action::Send(HttpRequest {
            method: Method::Get,
            url: format!("https://vlscppe.microsoft.com/tags?org_id=y6jn8c31&session_id={ID}"),
            user_agent: Some(AGENT.to_string()),
            empty_accept: true,
            referer: None,
        })
    );
    let (resolution, _) = resolution.step(body(""));
    assert_eq!(resolution.stage, Stage::Probed("3113".to_string()));
    let (resolution, action) = resolution.step(Event::Skus(vec![sku("Windows 11 24H2", "SKU1", "French")]));
    assert_eq!(resolution.stage, Stage::SkuResolved("SKU1".to_string()));
    match action {
        Action::Send(request) => {
            assert_eq!(request.referer, Some("https://www.microsoft.com/software-download/windows11".to_string()));
            assert!(request.url.contains("&SKU=SKU1&"));
        }
        other => panic!("{other:?}"),
    }
    let (resolution, action) = resolution.step(Event::Links(vec!["https://h/Win11_24H2_French_x64.iso".to_string()]));
    assert_eq!(action, Action::Finish);
    assert_eq!(resolution.stage, Stage::LinkResolved("https://h/Win11_24H2_French_x64.iso".to_string(), None));
}

#[test]
fn missing_fragments_fail_with_the_error_of_their_stage() {
    let entry = consumer(ConsumerRelease::Ten, ConsumerLanguage::German, WindowsArchitecture::i686);
    let (start, _) = Resolution::begin(entry, ResponseFormat::Current, session());

    let (resolution, action) = start.clone().step(body("<html>no product</html>"));
    assert_eq!(action, Action::Finish);
    assert_eq!(resolution.finish(), Some(Err(RidoError::ProductID)));

    let (resolution, _) = start.clone().step(body(CATALOG_PAGE));
    let (probed, _) = resolution.step(body(""));
    let (resolution, action) = probed.clone().step(Event::Skus(vec![sku("Windows 10", "1", "French")]));
    assert_eq!(action, Action::Finish);
    assert_eq!(resolution.finish(), Some(Err(RidoError::SKUID)));

    let (resolved, _) = probed.clone().step(Event::Skus(vec![sku("Windows 10", "1", "German")]));
    let (resolution, action) =
        resolved.clone().step(Event::Links(vec!["https://h/Win10_German_x64.iso".to_string()]));
    assert_eq!(action, Action::Finish);
    assert_eq!(resolution.finish(), Some(Err(RidoError::URL)));

    let (resolution, action) = resolved.clone().step(body(""));
    assert_eq!(action, Action::Finish);
    assert_eq!(resolution.finish(), Some(Err(RidoError::EmptyResponse)));

    let (resolution, action) =
        resolved.clone().step(body("We are unable to complete your request at this time."));
    assert_eq!(action, Action::Finish);
    assert_eq!(resolution.finish(), Some(Err(RidoError::BlockedRequest)));

    let (resolution, action) = resolved.clone().step(Event::DecodeFailed("missing field `Uri`".to_string()));
    assert_eq!(action, Action::Finish);
    assert_eq!(resolution.finish(), Some(Err(RidoError::JSONParsing("missing field `Uri`".to_string()))));

    let (resolution, action) = probed.step(Event::TransportFailed("connection reset".to_string()));
    assert_eq!(action, Action::Finish);
    assert_eq!(resolution.stage, Stage::Failed(RidoError::Reqwest("connection reset".to_string())));

    // a resolution that has not ended hands nothing out
    assert_eq!(resolved.finish(), None);
    assert_eq!(start.finish(), None);
}

#[test]
fn ended_resolution_stays_as_it_ended() {
    let entry = consumer(ConsumerRelease::Ten, ConsumerLanguage::German, WindowsArchitecture::i686);
    let (start, _) = Resolution::begin(entry, ResponseFormat::Current, session());
    let (failed, _) = start.step(Event::TransportFailed("down".to_string()));
    for event in [
        body(CATALOG_PAGE),
        Event::Skus(vec![sku("Windows 10", "1", "German")]),
        Event::Links(vec!["https://h/Win10_x32.iso".to_string()]),
        Event::DecodeFailed("x".to_string()),
        Event::TransportFailed("y".to_string()),
    ] {
        let (next, action) = failed.clone().step(event);
        assert_eq!(action, Action::Finish);
        assert_eq!(next, failed);
    }
    let done = Resolution {
        entry,
        format: ResponseFormat::Current,
        session: session(),
        stage: Stage::LinkResolved("https://h/x32.iso".to_string(), None),
    };
    let (next, action) = done.clone().step(Event::TransportFailed("late".to_string()));
    assert_eq!(action, Action::Finish);
    assert_eq!(next, done);
}

#[test]
fn older_endpoints_answer_with_pages() {
    let entry = consumer(ConsumerRelease::Ten, ConsumerLanguage::French, WindowsArchitecture::i686);
    let (resolution, _) = Resolution::begin(entry, ResponseFormat::Legacy, session());
    let (resolution, _) = resolution.step(body(CATALOG_PAGE));
    let (resolution, action) = resolution.step(body("probe"));
    assert_eq!(
        action,
        Action::Send(HttpRequest {
            method: Method::Post,
            url: format!(
                "https://www.microsoft.com/en-US/api/controls/contentinclude/html?pageId=a8f8f489-4c7f-463a-9ca6-5cff94d8d041&host=www.microsoft.com&segments=software-download,windows10ISO&query=&action=getskuinformationbyproductedition&sessionId={ID}&productEditionId=2618&sdVersion=2"
            ),
            user_agent: Some(AGENT.to_string()),
            empty_accept: true,
            referer: None,
        })
    );
    let page = "<option value=\"{&quot;id&quot;:&quot;17436&quot;,&quot;language&quot;:&quot;French&quot;}\">French</option>";
    let (resolution, action) = resolution.step(body(page));
    assert_eq!(resolution.stage, Stage::SkuResolved("17436".to_string()));
    assert_eq!(
        action,
        Action::Send(HttpRequest {
            method: Method::Post,
            url: format!(
                "https://www.microsoft.com/en-US/api/controls/contentinclude/html?pageId=6e2a1789-ef16-4f27-a296-74ef7ef5d96b&host=www.microsoft.com&segments=software-download,windows10ISO&query=&action=GetProductDownloadLinksBySku&sessionId={ID}&skuId=17436&language=English&sdVersion=2"
            ),
            user_agent: Some(AGENT.to_string()),
            empty_accept: true,
            referer: Some("https://microsoft.com/en-us/software-download/windows10ISO".to_string()),
        })
    );
    let sha = "c".repeat(64);
    let page = format!(
        "<a href=\"https://software.download.prss.microsoft.com/dbazure/Win10_22H2_French_x32v1.iso?t=1&amp;P1=2\">32-bit Download</a>\
         <table><tr><td>{sha}</td><td>32-bit</td><td>French</td></tr></table>"
    );
    let (resolution, action) = resolution.step(body(&page));
    assert_eq!(action, Action::Finish);
    assert_eq!(
        resolution.finish(),
        Some(Ok(WindowsData {
            info: entry,
            url: "https://software.download.prss.microsoft.com/dbazure/Win10_22H2_French_x32v1.iso?t=1&P1=2"
                .to_string(),
            hash: Some(sha),
        }))
    );
}

#[test]
fn older_endpoints_fail_with_the_error_of_their_stage() {
    let entry = consumer(ConsumerRelease::Eleven, ConsumerLanguage::French, WindowsArchitecture::x86_64);
    let probed = Resolution {
        entry,
        format: ResponseFormat::Legacy,
        session: session(),
        stage: Stage::Probed("3113".to_string()),
    };
    let (resolution, action) = probed.step(body("<p>no such language</p>"));
    assert_eq!(action, Action::Finish);
    assert_eq!(resolution.stage, Stage::Failed(RidoError::SKUID));
    let resolved = Resolution {
        entry,
        format: ResponseFormat::Legacy,
        session: session(),
        stage: Stage::SkuResolved("1".to_string()),
    };
    let (resolution, _) = resolved.clone().step(body("<p>no link</p>"));
    assert_eq!(resolution.stage, Stage::Failed(RidoError::HTMLParse));
    let (resolution, _) = resolved.clone().step(body(""));
    assert_eq!(resolution.stage, Stage::Failed(RidoError::EmptyResponse));
    let (resolution, _) = resolved.step(body("We are unable to complete your request at this time."));
    assert_eq!(resolution.stage, Stage::Failed(RidoError::BlockedRequest));
}

#[test]
fn enterprise_resolution_reads_one_page() {
    let entry = enterprise(EnterpriseRelease::TenLtsc, EnterpriseLanguage::Japanese, WindowsArchitecture::x86_64);
    let mut page = String::new();
    for (link, bits) in [(1, "32"), (2, "64"), (3, "32"), (4, "64")] {
        page.push_str(&format!(
            "<a href=\"https://go.microsoft.com/fwlink/p/?LinkID=210000{link}&clcid=0x411&culture=ja-jp&country=JP\"> {bits}-bit edition</a>\n"
        ));
    }
    for format in [ResponseFormat::Current, ResponseFormat::Legacy] {
        let (resolution, action) = Resolution::begin(entry, format, session());
        assert_eq!(resolution.stage, Stage::NotStarted);
        assert_eq!(
            action,
            Action::Send(HttpRequest {
                method: Method::Get,
                url: "https://www.microsoft.com/en-us/evalcenter/download-windows-10-enterprise".to_string(),
                user_agent: None,
                empty_accept: false,
                referer: None,
            })
        );
        let (resolution, action) = resolution.step(body(&page));
        assert_eq!(action, Action::Finish);
        assert_eq!(
            resolution.finish(),
            Some(Ok(WindowsData {
                info: entry,
                url: "https://go.microsoft.com/fwlink/p/?LinkID=2100004&clcid=0x411&culture=ja-jp&country=JP"
                    .to_string(),
                hash: None,
            }))
        );
    }
    let (resolution, _) = Resolution::begin(entry, ResponseFormat::Current, session());
    let (resolution, action) = resolution.step(body(""));
    assert_eq!(action, Action::Finish);
    assert_eq!(resolution.stage, Stage::Failed(RidoError::EmptyResponse));
    let (resolution, _) = Resolution::begin(entry, ResponseFormat::Current, session());
    let (resolution, _) = resolution.step(body("<html>nothing</html>"));
    assert_eq!(resolution.stage, Stage::Failed(RidoError::HTMLParse));
    let (resolution, _) = Resolution::begin(entry, ResponseFormat::Current, session());
    let (resolution, _) = resolution.step(Event::TransportFailed("dns".to_string()));
    assert_eq!(resolution.stage, Stage::Failed(RidoError::Reqwest("dns".to_string())));
}

#[test]
fn newer_endpoints_never_give_a_hash() {
    let entry = consumer(ConsumerRelease::Ten, ConsumerLanguage::French, WindowsArchitecture::x86_64);
    let resolved = Resolution {
        entry,
        format: ResponseFormat::Current,
        session: session(),
        stage: Stage::SkuResolved("1".to_string()),
    };
    let sha = "d".repeat(64);
    let page = format!(
        "<a href=\"https://software.download.prss.microsoft.com/dbazure/Win10_x64.iso\">64-bit</a>\
         <tr><td>{sha}</td><td>64-bit</td><td>French</td></tr>"
    );
    // the body is handed back for decoding, not read as a page
    let (resolution, action) = resolved.clone().step(body(&page));
    assert_eq!(resolution.stage, Stage::SkuResolved("1".to_string()));
    assert_eq!(action, Action::Decode(Document::Links, page.clone()));
    let (resolution, _) = resolved.step(Event::Links(vec![
        "https://software.download.prss.microsoft.com/dbazure/Win10_x64.iso".to_string(),
    ]));
    assert_eq!(
        resolution.stage,
        Stage::LinkResolved("https://software.download.prss.microsoft.com/dbazure/Win10_x64.iso".to_string(), None)
    );
}

#[test]
fn events_that_a_stage_does_not_wait_for_fail_it() {
    let entry = consumer(ConsumerRelease::Ten, ConsumerLanguage::French, WindowsArchitecture::x86_64);
    let at = |stage: Stage| Resolution { entry, format: ResponseFormat::Current, session: session(), stage };
    let (resolution, action) = at(Stage::NotStarted).step(Event::Links(Vec::new()));
    assert_eq!(action, Action::Finish);
    assert_eq!(resolution.stage, Stage::Failed(RidoError::ProductID));
    let (resolution, _) = at(Stage::Probed("1".to_string())).step(Event::Links(Vec::new()));
    assert_eq!(resolution.stage, Stage::Failed(RidoError::SKUID));
    let (resolution, _) = at(Stage::SkuResolved("1".to_string())).step(Event::Skus(Vec::new()));
    assert_eq!(resolution.stage, Stage::Failed(RidoError::URL));
    // the probe's reply is not looked at
    let (resolution, action) = at(Stage::ProductResolved("1".to_string())).step(Event::Links(Vec::new()));
    assert_eq!(resolution.stage, Stage::Probed("1".to_string()));
    assert!(matches!(action, Action::Send(_)));
    let ltsc = enterprise(EnterpriseRelease::TenLtsc, EnterpriseLanguage::German, WindowsArchitecture::i686);
    let (resolution, _) = Resolution::begin(ltsc, ResponseFormat::Legacy, session());
    let (resolution, action) = resolution.step(Event::Skus(Vec::new()));
    assert_eq!(action, Action::Finish);
    assert_eq!(resolution.stage, Stage::Failed(RidoError::HTMLParse));
}
