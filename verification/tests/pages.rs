use syncflo_browser::browser::pages::{
    build_global_nav_script, build_start_page_data_url, local_file_url, Asset, ASSET_DIRECTORY,
};

#[test]
fn data_url_holds_the_page_in_base64() {
    assert_eq!(build_start_page_data_url("<h1>hi</h1>"), "data:text/html;base64,PGgxPmhpPC9oMT4=");
    assert_eq!(build_start_page_data_url(""), "data:text/html;base64,");
    assert_eq!(build_start_page_data_url("a"), "data:text/html;base64,YQ==");
    assert_eq!(build_start_page_data_url("ab"), "data:text/html;base64,YWI=");
    assert_eq!(build_start_page_data_url("abc"), "data:text/html;base64,YWJj");
    assert_eq!(build_start_page_data_url("hello world~"), "data:text/html;base64,aGVsbG8gd29ybGR+");
}

#[test]
fn data_url_pads_the_last_group() {
    assert_eq!(build_start_page_data_url("f"), "data:text/html;base64,Zg==");
    assert_eq!(build_start_page_data_url("fo"), "data:text/html;base64,Zm8=");
    assert_eq!(build_start_page_data_url("foo"), "data:text/html;base64,Zm9v");
    assert_eq!(build_start_page_data_url("foob"), "data:text/html;base64,Zm9vYg==");
    assert_eq!(build_start_page_data_url("fooba"), "data:text/html;base64,Zm9vYmE=");
    assert_eq!(build_start_page_data_url("foobar"), "data:text/html;base64,Zm9vYmFy");
}

#[test]
fn data_url_encodes_utf8_bytes() {
    assert_eq!(
        build_start_page_data_url("<title>한</title>"),
        "data:text/html;base64,PHRpdGxlPu2VnDwvdGl0bGU+"
    );
    assert_eq!(build_start_page_data_url("ÿþ"), "data:text/html;base64,w7/Dvg==");
}

#[test]
fn nav_script_gets_the_home_url() {
    assert_eq!(
        build_global_nav_script("var home = '{HOME}';", "data:text/html;base64,YQ=="),
        "var home = 'data:text/html;base64,YQ==';"
    );
    assert_eq!(
        build_global_nav_script("a('{HOME}'); b = w.H || '{HOME}';", "x"),
        "a('x'); b = w.H || 'x';"
    );
    assert_eq!(build_global_nav_script("{HOME}{HOME}", "ab"), "abab");
    assert_eq!(build_global_nav_script("{HOME}", ""), "");
}

#[test]
fn nav_script_without_the_mark_stays() {
    assert_eq!(build_global_nav_script("", "x"), "");
    assert_eq!(build_global_nav_script("no mark", "x"), "no mark");
    assert_eq!(build_global_nav_script("{home} {HOME {{HOME", "x"), "{home} {HOME {{HOME");
}

#[test]
fn nav_script_replaces_from_the_left_and_once() {
    assert_eq!(build_global_nav_script("{{HOME}}", "x"), "{x}");
    assert_eq!(build_global_nav_script("{HOME{HOME}", "x"), "{HOMEx");
    assert_eq!(build_global_nav_script("{HOME}", "{HOME}"), "{HOME}");
    assert_eq!(build_global_nav_script("a{HOME}b", "{HOME}{HOME}"), "a{HOME}{HOME}b");
}

#[test]
fn local_file_url_of_a_page_that_is_there() {
    assert_eq!(
        local_file_url(Asset::Home, "/srv/shell/assets/home.html", true),
        Ok("file:///srv/shell/assets/home.html".to_string())
    );
    assert_eq!(local_file_url(Asset::Nav, "assets/nav.html", true), Ok("file://assets/nav.html".to_string()));
    assert_eq!(local_file_url(Asset::App, "", true), Ok("file://".to_string()));
}

#[test]
fn local_file_url_of_a_page_that_is_missing() {
    assert_eq!(
        local_file_url(Asset::Home, "/srv/shell/assets/home.html", false),
        Err("Home file not found: /srv/shell/assets/home.html".to_string())
    );
    assert_eq!(
        local_file_url(Asset::Nav, "/srv/shell/assets/nav.html", false),
        Err("Nav file not found: /srv/shell/assets/nav.html".to_string())
    );
    assert_eq!(
        local_file_url(Asset::App, "/srv/shell/assets/app.html", false),
        Err("Home file not found: /srv/shell/assets/app.html".to_string())
    );
}

#[test]
fn asset_names() {
    assert_eq!(ASSET_DIRECTORY, "assets");
    assert_eq!(Asset::App.file_name(), "app.html");
    assert_eq!(Asset::Nav.file_name(), "nav.html");
    assert_eq!(Asset::Home.file_name(), "home.html");
    assert_eq!(Asset::App.label(), "Home");
    assert_eq!(Asset::Nav.label(), "Nav");
    assert_eq!(Asset::Home.label(), "Home");
}
