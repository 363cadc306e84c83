use rido::evalcenter::{
    evalcenter_url, extract_labelled_link, extract_positional_link, pick_labelled, pick_positional,
    PositionalLink,
};
use rido::link::{check_body, clean_url, extract_download_link, is_image_for, read_label, select_download_url};
use rido::product::extract_product_id;
use rido::session::{firefox_version, user_agent};
use rido::sku::{extract_sku_id, find_sku, referer_for};
use rido::{
    ConsumerRelease, EnterpriseLanguage, EnterpriseRelease, RidoError, SessionContext,
    WindowsArchitecture, WindowsSku,
};

const BLOCK_PAGE: &str = "We are unable to complete your request at this time.";

fn skus_of(document: &str) -> Vec<WindowsSku> {
    let value: serde_json::Value = serde_json::from_str(document).unwrap();
    value["Skus"]
        .as_array()
        .unwrap()
        .iter()
        .map(|sku| WindowsSku {
            product_display_name: sku["ProductDisplayName"].as_str().unwrap().to_string(),
            id: sku["Id"].as_str().unwrap().to_string(),
            localized_language: sku["LocalizedLanguage"].as_str().unwrap().to_string(),
        })
        .collect()
}

fn uris_of(document: &str) -> Vec<String> {
    let value: serde_json::Value = serde_json::from_str(document).unwrap();
    value["ProductDownloadOptions"]
        .as_array()
        .unwrap()
        .iter()
        .map(|option| option["Uri"].as_str().unwrap().to_string())
        .collect()
}

#[test]
fn product_id_is_read_from_the_option_fragment() {
    let page = "<html><select id=\"product-edition\"><option value=\"\" selected=\"selected\">Select Download</option>\
                <option value=\"12345\">Windows 11 (multi-edition ISO for x64 devices)</option></select></html>";
    assert_eq!(extract_product_id(page), Ok("12345".to_string()));
}

#[test]
fn product_id_is_the_first_that_the_page_offers() {
    let page = "<option value=\"2618\">Windows 10 (multi-edition ISO)</option><option value=\"9\">Windows 9</option>";
    assert_eq!(extract_product_id(page), Ok("2618".to_string()));
}

#[test]
fn page_without_a_product_gives_product_id_error() {
    assert_eq!(extract_product_id(""), Err(RidoError::ProductID));
    assert_eq!(extract_product_id("<html>nothing here</html>"), Err(RidoError::ProductID));
    assert_eq!(extract_product_id("<option value=\"5\">Linux</option>"), Err(RidoError::ProductID));
    // the marker stands before the value: the fragment offers nothing
    assert_eq!(extract_product_id("<option \">Windows value=\"5"), Err(RidoError::ProductID));
    // the value and the marker stand in different fragments
    assert_eq!(extract_product_id("value=\"5 option \">Windows"), Err(RidoError::ProductID));
}

#[test]
fn product_id_behind_the_ceiling_is_not_seen() {
    let fragment = "<option value=\"77\">Windows 11</option>";
    let mut page = " ".repeat(102400 - fragment.len());
    page.push_str(fragment);
    assert_eq!(page.len(), 102400);
    assert_eq!(extract_product_id(&page), Ok("77".to_string()));
    let mut page = " ".repeat(102400 - fragment.len() + 30);
    page.push_str(fragment);
    assert_eq!(extract_product_id(&page), Err(RidoError::ProductID));
    // a page whose byte at the ceiling lies inside a character is read up to that character
    let mut page = "é".repeat(51200);
    page.insert(0, ' ');
    page.push_str(fragment);
    assert_eq!(extract_product_id(&page), Err(RidoError::ProductID));
}

#[test]
fn sku_id_is_the_fourth_quoted_field_of_the_language_line() {
    let body = "<select id=\"product-languages\">\n\
                <option value=\"\" selected=\"selected\">Choose one</option>\n\
                <option value=\"{&quot;id&quot;:&quot;17435&quot;,&quot;language&quot;:&quot;English&quot;}\">English (United States)</option>\r\n\
                <option value=\"{&quot;id&quot;:&quot;17436&quot;,&quot;language&quot;:&quot;French&quot;}\">French</option>\n\
                </select>";
    assert_eq!(extract_sku_id(body, "English (United States)"), Ok("17435".to_string()));
    assert_eq!(extract_sku_id(body, "French"), Ok("17436".to_string()));
    assert_eq!(extract_sku_id(body, "German"), Err(RidoError::SKUID));
    assert_eq!(extract_sku_id("", "German"), Err(RidoError::SKUID));
}

#[test]
fn sku_line_without_a_fourth_field_gives_sku_error() {
    let body = "<p>French is spoken here</p>\n\
                <option value=\"{&quot;id&quot;:&quot;17436&quot;,&quot;language&quot;:&quot;French&quot;}\">French</option>";
    assert_eq!(extract_sku_id(body, "French"), Err(RidoError::SKUID));
}

#[test]
fn sku_line_behind_the_ceiling_is_not_seen() {
    let line = "<option value=\"{&quot;id&quot;:&quot;9&quot;}\">Thai</option>";
    let mut body = "x".repeat(10240 - line.len() - 1);
    body.push('\n');
    body.push_str(line);
    assert_eq!(extract_sku_id(&body, "Thai"), Ok("9".to_string()));
    let mut body = "x".repeat(10240);
    body.push('\n');
    body.push_str(line);
    assert_eq!(extract_sku_id(&body, "Thai"), Err(RidoError::SKUID));
}

#[test]
fn sku_is_the_first_record_in_the_language() {
    let skus = skus_of(
        "{\"Skus\":[{\"ProductDisplayName\":\"Windows 11 24H2\",\"Id\":\"SKU1\",\"LocalizedLanguage\":\"French\"}]}",
    );
    assert_eq!(find_sku(&skus, "French"), Ok(0));
    assert_eq!(skus[0].id, "SKU1");
    assert_eq!(find_sku(&skus, "German"), Err(RidoError::SKUID));
    assert_eq!(find_sku(&skus, "french"), Err(RidoError::SKUID));
    assert_eq!(find_sku(&skus, "Fren"), Err(RidoError::SKUID));
    assert_eq!(find_sku(&Vec::new(), "French"), Err(RidoError::SKUID));
    let skus = skus_of(
        "{\"Skus\":[\
         {\"ProductDisplayName\":\"Windows 10\",\"Id\":\"A\",\"LocalizedLanguage\":\"French Canadian\"},\
         {\"ProductDisplayName\":\"Windows 10\",\"Id\":\"B\",\"LocalizedLanguage\":\"French\"},\
         {\"ProductDisplayName\":\"Windows 10\",\"Id\":\"C\",\"LocalizedLanguage\":\"French\"}]}",
    );
    assert_eq!(find_sku(&skus, "French"), Ok(1));
}

#[test]
fn referer_is_the_catalogue_page_or_named_after_the_product() {
    assert_eq!(
        referer_for(ConsumerRelease::Ten, "Windows 10 22H2"),
        "https://microsoft.com/en-us/software-download/windows10ISO"
    );
    assert_eq!(
        referer_for(ConsumerRelease::Eleven, "whatever"),
        "https://microsoft.com/en-us/software-download/windows11"
    );
    assert_eq!(
        referer_for(ConsumerRelease::CustomProductID(3113), "Windows 11 24H2"),
        "https://www.microsoft.com/software-download/windows11"
    );
    assert_eq!(
        referer_for(ConsumerRelease::CustomProductID(2618), "Windows 10 22H2"),
        "https://www.microsoft.com/software-download/windows10"
    );
    assert_eq!(
        referer_for(ConsumerRelease::CustomProductID(1), "Windows"),
        "https://www.microsoft.com/software-download/windows11"
    );
    assert_eq!(
        referer_for(ConsumerRelease::CustomProductID(1), ""),
        "https://www.microsoft.com/software-download/windows11"
    );
}

#[test]
fn blocked_and_empty_replies_are_told_apart_first() {
    assert_eq!(check_body(""), Err(RidoError::EmptyResponse));
    assert_eq!(check_body(BLOCK_PAGE), Err(RidoError::BlockedRequest));
    assert_eq!(check_body(&format!("<p>{BLOCK_PAGE} Some users are banned.</p>")), Err(RidoError::BlockedRequest));
    assert_eq!(check_body("{\"ProductDownloadOptions\":[]}"), Ok(()));
    assert_eq!(
        extract_download_link(BLOCK_PAGE, WindowsArchitecture::x86_64, "French"),
        Err(RidoError::BlockedRequest)
    );
    assert_eq!(extract_download_link("", WindowsArchitecture::x86_64, "French"), Err(RidoError::EmptyResponse));
    // a page that holds both the refusal and a link is a refusal
    let page = format!(
        "{BLOCK_PAGE}<a href=\"https://software.download.prss.microsoft.com/dbazure/Win10_x64.iso?t=1\">x</a>"
    );
    assert_eq!(extract_download_link(&page, WindowsArchitecture::x86_64, "French"), Err(RidoError::BlockedRequest));
}

#[test]
fn listed_link_is_the_first_with_the_tag() {
    let uris = uris_of(
        "{\"ProductDownloadOptions\":[\
         {\"Uri\":\"https://software.download.prss.microsoft.com/dbazure/Win10_22H2_English_x64v1.iso?t=abc&amp;P1=1&amp;P2=2\"},\
         {\"Uri\":\"https://software.download.prss.microsoft.com/dbazure/Win10_22H2_English_x32v1.iso?t=def&amp;P1=3&amp;P2=4\"}]}",
    );
    assert_eq!(
        select_download_url(&uris, WindowsArchitecture::i686),
        Ok("https://software.download.prss.microsoft.com/dbazure/Win10_22H2_English_x32v1.iso?t=def&P1=3&P2=4".to_string())
    );
    assert_eq!(
        select_download_url(&uris, WindowsArchitecture::x86_64),
        Ok("https://software.download.prss.microsoft.com/dbazure/Win10_22H2_English_x64v1.iso?t=abc&P1=1&P2=2".to_string())
    );
    assert_eq!(select_download_url(&uris[..1].to_vec(), WindowsArchitecture::i686), Err(RidoError::URL));
    assert_eq!(select_download_url(&Vec::new(), WindowsArchitecture::x86_64), Err(RidoError::URL));
}

#[test]
fn link_is_cleaned_of_stray_characters() {
    assert_eq!(clean_url("https://a.b/c?d=1&amp;e=2"), "https://a.b/c?d=1&e=2");
    assert_eq!(clean_url(" https://a.b/c\r\n\t"), "https://a.b/c");
    assert_eq!(clean_url("https://a.b/ü?x=y z"), "https://a.b/?x=yz");
    assert_eq!(clean_url("&am p;"), "&");
    assert_eq!(clean_url(""), "");
}

#[test]
fn image_link_holds_the_tag_before_the_extension() {
    assert!(is_image_for("https://h/Win10_22H2_English_x64v1.iso?t=1", "x64"));
    assert!(is_image_for("https://h/Win10_x64.iso", "x64"));
    assert!(!is_image_for("https://h/Win10_x64.iso", "x32"));
    assert!(!is_image_for("https://h/Win10.iso?arch=x64", "x64"));
    assert!(!is_image_for("https://h/Win10_x64.img", "x64"));
    assert!(is_image_for("https://h/a.iso/x64/b.iso", "x64"));
    assert!(!is_image_for("", "x64"));
}

#[test]
fn page_of_links_gives_the_link_and_the_hash() {
    let sha64 = "A".repeat(64);
    let sha32 = "b".repeat(64);
    let page = format!(
        "<div><a class=\"button\" href=\"https://software.download.prss.microsoft.com/dbazure/Win10_22H2_French_x32v1.iso?t=1&amp;P1=2\">32-bit Download</a>\n\
         <a class=\"button\" href=\"https://software.download.prss.microsoft.com/dbazure/Win10_22H2_French_x64v1.iso?t=3&amp;P1=4\">64-bit Download</a></div>\n\
         <table><tr><td>{sha64}</td><td>64-bit</td><td> French </td></tr>\n\
         <tr><td>{sha32}</td><td>32-bit</td><td>French</td></tr></table>"
    );
    assert_eq!(
        extract_download_link(&page, WindowsArchitecture::x86_64, "French"),
        Ok((
            "https://software.download.prss.microsoft.com/dbazure/Win10_22H2_French_x64v1.iso?t=3&P1=4".to_string(),
            Some(sha64.clone())
        ))
    );
    assert_eq!(
        extract_download_link(&page, WindowsArchitecture::i686, "French"),
        Ok((
            "https://software.download.prss.microsoft.com/dbazure/Win10_22H2_French_x32v1.iso?t=1&P1=2".to_string(),
            Some(sha32)
        ))
    );
    // the table has no entry for the language: the link comes without a hash
    assert_eq!(
        extract_download_link(&page, WindowsArchitecture::x86_64, "German"),
        Ok((
            "https://software.download.prss.microsoft.com/dbazure/Win10_22H2_French_x64v1.iso?t=3&P1=4".to_string(),
            None
        ))
    );
}

#[test]
fn page_of_links_without_a_fitting_link_gives_html_error() {
    let page = "<a href=\"https://software.download.prss.microsoft.com/dbazure/Win11_English_x64.iso?t=1\">64-bit Download</a>";
    assert_eq!(extract_download_link(page, WindowsArchitecture::i686, "English"), Err(RidoError::HTMLParse));
    assert_eq!(
        extract_download_link("<html>no link</html>", WindowsArchitecture::x86_64, "English"),
        Err(RidoError::HTMLParse)
    );
    // a link on another host, or outside the delivery path, is no candidate
    let page = "<a href=\"https://example.com/dbazure/Win11_x64.iso\">x</a>\
                <a href=\"https://software.download.prss.microsoft.com/other/Win11_x64.iso\">y</a>";
    assert_eq!(extract_download_link(page, WindowsArchitecture::x86_64, "English"), Err(RidoError::HTMLParse));
}

#[test]
fn link_behind_the_ceiling_is_not_seen() {
    let link = "<a href=\"https://software.download.prss.microsoft.com/dbazure/Win11_x64.iso?t=1\">64-bit</a>";
    let mut page = " ".repeat(4096 - link.len());
    page.push_str(link);
    assert_eq!(
        extract_download_link(&page, WindowsArchitecture::x86_64, "English"),
        Ok(("https://software.download.prss.microsoft.com/dbazure/Win11_x64.iso?t=1".to_string(), None))
    );
    let mut page = " ".repeat(4096);
    page.push_str(link);
    assert_eq!(extract_download_link(&page, WindowsArchitecture::x86_64, "English"), Err(RidoError::HTMLParse));
}

#[test]
fn hash_label_is_decoded_before_it_is_compared() {
    assert_eq!(read_label(" English &#40;United States&#41; "), "English (United States)");
    assert_eq!(read_label("a &amp; b"), "a & b");
    assert_eq!(read_label("&quot;x&quot;"), "\"x\"");
    assert_eq!(read_label("&amp;#40;"), "&#40;");
    let sha = "0123456789abcdef".repeat(4);
    let page = format!(
        "<a href=\"https://software.download.prss.microsoft.com/dbazure/Win10_x64.iso\">64-bit</a>\
         <tr><td>{sha}</td> <td>64-bit</td> <td>English &#40;United States&#41;</td></tr>"
    );
    assert_eq!(
        extract_download_link(&page, WindowsArchitecture::x86_64, "English (United States)"),
        Ok(("https://software.download.prss.microsoft.com/dbazure/Win10_x64.iso".to_string(), Some(sha)))
    );
}

fn evaluation_page() -> String {
    let mut page = String::from("<html><body>\n");
    for (link, culture, country, clcid) in [
        (1000001, "en-us", "US", "409"),
        (1000002, "en-us", "US", "409"),
        (1000003, "en-us", "US", "409"),
        (1000004, "en-us", "US", "409"),
        (1000005, "fr-fr", "FR", "40c"),
        (1000006, "fr-fr", "FR", "40c"),
        (1000007, "fr-fr", "FR", "40c"),
        (1000008, "fr-fr", "FR", "40c"),
    ] {
        let bits = if link % 2 == 1 { "32" } else { "64" };
        page.push_str(&format!(
            "<a href=\"https://go.microsoft.com/fwlink/p/?LinkID={link}&clcid=0x{clcid}&culture={culture}&country={country}\"> {bits}-bit edition</a>\n"
        ));
    }
    page.push_str("</body></html>");
    page
}

fn fwlink(link: u32, clcid: &str, culture: &str, country: &str) -> String {
    format!("https://go.microsoft.com/fwlink/p/?LinkID={link}&clcid=0x{clcid}&culture={culture}&country={country}")
}

#[test]
fn evaluation_centre_address_names_the_page_of_the_release() {
    assert_eq!(
        evalcenter_url(EnterpriseRelease::TenEnterprise),
        "https://www.microsoft.com/en-us/evalcenter/download-windows-10-enterprise"
    );
    assert_eq!(
        evalcenter_url(EnterpriseRelease::TenLtsc),
        "https://www.microsoft.com/en-us/evalcenter/download-windows-10-enterprise"
    );
    assert_eq!(
        evalcenter_url(EnterpriseRelease::ElevenEnterprise),
        "https://www.microsoft.com/en-us/evalcenter/download-windows-11-enterprise"
    );
    assert_eq!(
        evalcenter_url(EnterpriseRelease::Server2012R2),
        "https://www.microsoft.com/en-us/evalcenter/download-windows-server-2012-r2"
    );
    assert_eq!(
        evalcenter_url(EnterpriseRelease::Server2022),
        "https://www.microsoft.com/en-us/evalcenter/download-windows-server-2022"
    );
}

#[test]
fn labelled_link_is_picked_by_language_and_width() {
    let page = evaluation_page();
    assert_eq!(
        extract_labelled_link(&page, EnterpriseRelease::TenEnterprise, EnterpriseLanguage::EnglishUS, WindowsArchitecture::i686),
        Ok(fwlink(1000001, "409", "en-us", "US"))
    );
    assert_eq!(
        extract_labelled_link(&page, EnterpriseRelease::TenEnterprise, EnterpriseLanguage::EnglishUS, WindowsArchitecture::x86_64),
        Ok(fwlink(1000002, "409", "en-us", "US"))
    );
    assert_eq!(
        extract_labelled_link(&page, EnterpriseRelease::TenLtsc, EnterpriseLanguage::EnglishUS, WindowsArchitecture::i686),
        Ok(fwlink(1000003, "409", "en-us", "US"))
    );
    assert_eq!(
        extract_labelled_link(&page, EnterpriseRelease::TenLtsc, EnterpriseLanguage::French, WindowsArchitecture::x86_64),
        Ok(fwlink(1000008, "40c", "fr-fr", "FR"))
    );
    assert_eq!(
        extract_labelled_link(&page, EnterpriseRelease::Server2022, EnterpriseLanguage::French, WindowsArchitecture::x86_64),
        Ok(fwlink(1000006, "40c", "fr-fr", "FR"))
    );
}

#[test]
fn labelled_link_that_is_missing_gives_html_error() {
    let page = evaluation_page();
    assert_eq!(
        extract_labelled_link(&page, EnterpriseRelease::Server2022, EnterpriseLanguage::German, WindowsArchitecture::x86_64),
        Err(RidoError::HTMLParse)
    );
    assert_eq!(
        extract_labelled_link("<html></html>", EnterpriseRelease::Server2022, EnterpriseLanguage::French, WindowsArchitecture::x86_64),
        Err(RidoError::HTMLParse)
    );
    assert_eq!(
        extract_labelled_link("", EnterpriseRelease::Server2022, EnterpriseLanguage::French, WindowsArchitecture::x86_64),
        Err(RidoError::EmptyResponse)
    );
    // one link of the width: the long-term-servicing release wants the second
    let page = "<a href=\"https://go.microsoft.com/fwlink/p/?LinkID=2000001&clcid=0x409&culture=en-us&country=US\"> 64-bit edition</a>";
    assert_eq!(
        extract_labelled_link(page, EnterpriseRelease::TenLtsc, EnterpriseLanguage::EnglishUS, WindowsArchitecture::x86_64),
        Err(RidoError::HTMLParse)
    );
    assert_eq!(
        extract_labelled_link(page, EnterpriseRelease::TenEnterprise, EnterpriseLanguage::EnglishUS, WindowsArchitecture::x86_64),
        Ok(fwlink(2000001, "409", "en-us", "US"))
    );
}

#[test]
fn positional_link_is_picked_by_its_place() {
    let page = evaluation_page();
    let exact = |link: u32| Ok(PositionalLink { url: fwlink(link, "40c", "fr-fr", "FR"), fallback: false });
    assert_eq!(
        extract_positional_link(&page, EnterpriseRelease::TenEnterprise, EnterpriseLanguage::French, WindowsArchitecture::i686),
        exact(1000005)
    );
    assert_eq!(
        extract_positional_link(&page, EnterpriseRelease::TenEnterprise, EnterpriseLanguage::French, WindowsArchitecture::x86_64),
        exact(1000006)
    );
    assert_eq!(
        extract_positional_link(&page, EnterpriseRelease::TenLtsc, EnterpriseLanguage::French, WindowsArchitecture::i686),
        exact(1000007)
    );
    assert_eq!(
        extract_positional_link(&page, EnterpriseRelease::TenLtsc, EnterpriseLanguage::French, WindowsArchitecture::x86_64),
        exact(1000008)
    );
}

#[test]
fn positional_link_falls_back_to_the_first_and_says_so() {
    let urls = vec!["first".to_string(), "second".to_string()];
    assert_eq!(
        pick_positional(&urls, EnterpriseRelease::Server2019, WindowsArchitecture::x86_64),
        Some(PositionalLink { url: "second".to_string(), fallback: false })
    );
    assert_eq!(
        pick_positional(&urls, EnterpriseRelease::TenLtsc, WindowsArchitecture::i686),
        Some(PositionalLink { url: "first".to_string(), fallback: true })
    );
    assert_eq!(
        pick_positional(&urls[..1].to_vec(), EnterpriseRelease::Server2019, WindowsArchitecture::x86_64),
        Some(PositionalLink { url: "first".to_string(), fallback: true })
    );
    assert_eq!(
        pick_positional(&urls[..1].to_vec(), EnterpriseRelease::Server2019, WindowsArchitecture::i686),
        Some(PositionalLink { url: "first".to_string(), fallback: false })
    );
    assert_eq!(pick_positional(&Vec::new(), EnterpriseRelease::Server2019, WindowsArchitecture::i686), None);
    assert_eq!(pick_labelled(&urls, EnterpriseRelease::TenLtsc), Some("second".to_string()));
    assert_eq!(pick_labelled(&urls, EnterpriseRelease::Server2016), Some("first".to_string()));
    assert_eq!(pick_labelled(&urls[..1].to_vec(), EnterpriseRelease::TenLtsc), None);
    assert_eq!(pick_labelled(&Vec::new(), EnterpriseRelease::Server2016), None);
    // a page with one link of the language: the 64-bit request gets it, marked
    let page = "<a href=\"https://go.microsoft.com/fwlink/p/?LinkID=3000001&clcid=0x411&culture=ja-jp&country=JP\">Download</a>";
    assert_eq!(
        extract_positional_link(page, EnterpriseRelease::Server2016, EnterpriseLanguage::Japanese, WindowsArchitecture::x86_64),
        Ok(PositionalLink { url: fwlink(3000001, "411", "ja-jp", "JP"), fallback: true })
    );
    assert_eq!(
        extract_positional_link(page, EnterpriseRelease::Server2016, EnterpriseLanguage::German, WindowsArchitecture::x86_64),
        Err(RidoError::HTMLParse)
    );
    assert_eq!(
        extract_positional_link("", EnterpriseRelease::Server2016, EnterpriseLanguage::German, WindowsArchitecture::x86_64),
        Err(RidoError::EmptyResponse)
    );
}

#[test]
fn firefox_version_grows_every_four_weeks() {
    assert_eq!(firefox_version(1710806400), 124);
    assert_eq!(firefox_version(1710806400 + 2419199), 124);
    assert_eq!(firefox_version(1710806400 + 2419200), 125);
    assert_eq!(firefox_version(1710806400 + 10 * 2419200 + 5), 134);
    assert_eq!(firefox_version(0), 124);
    assert_eq!(firefox_version(1710806399), 124);
    assert_eq!(firefox_version(u64::MAX), 124 + (u64::MAX - 1710806400) / 2419200);
}

#[test]
fn user_agent_names_the_version_twice() {
    assert_eq!(
        user_agent(1710806400),
        "Mozilla 5.0 (X11, Linux x86_64; rv:124.0) Gecko/20100101 Firefox/124.0"
    );
    assert_eq!(
        user_agent(1710806400 + 3 * 2419200),
        "Mozilla 5.0 (X11, Linux x86_64; rv:127.0) Gecko/20100101 Firefox/127.0"
    );
}

#[test]
fn session_has_a_fresh_identifier_of_the_right_shape() {
    let session = SessionContext::new(1710806400);
    assert_eq!(session.user_agent, user_agent(1710806400));
    let id: Vec<char> = session.session_id.chars().collect();
    assert_eq!(id.len(), 36);
    for (i, c) in id.iter().enumerate() {
        if i == 8 || i == 13 || i == 18 || i == 23 {
            assert_eq!(*c, '-');
        } else {
            assert!(c.is_ascii_digit() || ('a'..='f').contains(c), "{c:?} at {i}");
        }
    }
    assert_eq!(id[14], '4');
    assert!(matches!(id[19], '8' | '9' | 'a' | 'b'));
    let other = SessionContext::new(1710806400);
    assert_ne!(session.session_id, other.session_id);
    let fixed = SessionContext::with_id(1710806400, "abc".to_string());
    assert_eq!(fixed.session_id, "abc");
    assert_eq!(fixed.user_agent, session.user_agent);
}
