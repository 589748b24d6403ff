use vsmoddb::request::{request_url, search_endpoint, Endpoint, SortBy};

#[test]
fn sort_values() {
    assert_eq!(SortBy::Trending.as_query_value(), "trendingpoints");
    assert_eq!(SortBy::Downloads.as_query_value(), "downloads");
    assert_eq!(SortBy::Comments.as_query_value(), "comments");
    assert_eq!(SortBy::Name.as_query_value(), "name");
    assert_eq!(SortBy::Released.as_query_value(), "lastreleased");
    assert_eq!(SortBy::Created.to_string(), "created");
    assert_eq!(SortBy::default(), SortBy::Released);
}

#[test]
fn plain_endpoint_urls() {
    assert_eq!(request_url(&Endpoint::Mods), "https://mods.vintagestory.at/api/mods");
    assert_eq!(request_url(&Endpoint::Tags), "https://mods.vintagestory.at/api/tags");
    assert_eq!(request_url(&Endpoint::Authors), "https://mods.vintagestory.at/api/authors");
    assert_eq!(request_url(&Endpoint::GameVersions), "https://mods.vintagestory.at/api/gameversions");
}

#[test]
fn numeric_endpoint_urls() {
    assert_eq!(request_url(&Endpoint::ModById(3351)), "https://mods.vintagestory.at/api/mod/3351");
    assert_eq!(request_url(&Endpoint::Comments(0)), "https://mods.vintagestory.at/api/comments/0");
    assert_eq!(
        request_url(&Endpoint::ModByAlias("carryon".to_string())),
        "https://mods.vintagestory.at/api/mod/carryon"
    );
}

#[test]
fn search_url_defaults_to_last_released() {
    let e = search_endpoint("farm", false, None);
    assert_eq!(
        request_url(&e),
        "https://mods.vintagestory.at/api/mods?text=farm&sortby=lastreleased&sortdir=d&side=&userid=0&mv="
    );
    let e = search_endpoint("farm", true, Some(SortBy::Downloads));
    assert_eq!(
        request_url(&e),
        "https://mods.vintagestory.at/api/mods?text=farm&sortby=downloads&sortdir=a&side=&userid=0&mv="
    );
}
