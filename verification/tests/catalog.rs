use restock_monitor::shopify::{
    accept_link, LinkError, Product, ProductImage, ProductResponse, ProductVariant, ShopifyClient,
};

fn variant(title: &str, available: bool) -> ProductVariant {
    ProductVariant {
        id: 1,
        title: String::from(title),
        option1: Some(String::from("Red")),
        option2: None,
        option3: None,
        available,
        price: String::from("19.99"),
    }
}

fn product(id: i64, handle: &str, stock: &[bool]) -> Product {
    Product {
        id,
        title: format!("Item {}", id),
        handle: String::from(handle),
        variants: stock.iter().map(|a| variant("v", *a)).collect(),
        images: vec![ProductImage { src: String::from("https://cdn.example.com/a.png") }],
    }
}

#[test]
fn product_with_one_available_variant_is_available() {
    assert!(product(1, "a", &[false, true, false]).any_variant_available());
}

#[test]
fn product_without_available_variant_is_unavailable() {
    assert!(!product(1, "a", &[false, false]).any_variant_available());
}

#[test]
fn product_without_variants_is_unavailable() {
    assert!(!product(1, "a", &[]).any_variant_available());
}

#[test]
fn get_product_finds_the_first_with_the_id() {
    let response = ProductResponse::new(vec![
        product(1, "one", &[true]),
        product(2, "two", &[false]),
        product(2, "two-again", &[true]),
    ]);
    assert_eq!(response.get_product(2).map(|p| p.handle.as_str()), Some("two"));
    assert_eq!(response.get_product(1).map(|p| p.handle.as_str()), Some("one"));
    assert!(response.get_product(3).is_none());
}

#[test]
fn is_product_available_looks_at_the_first_with_the_id() {
    let response = ProductResponse::new(vec![
        product(1, "one", &[true]),
        product(2, "two", &[false]),
        product(2, "two-again", &[true]),
    ]);
    assert!(response.is_product_available(1));
    assert!(!response.is_product_available(2));
    assert!(!response.is_product_available(3));
}

#[test]
fn available_products_keep_catalog_order() {
    let response = ProductResponse::new(vec![
        product(5, "five", &[true]),
        product(6, "six", &[false]),
        product(7, "seven", &[false, true]),
        product(8, "eight", &[]),
    ]);
    let available: Vec<i64> = response.get_available_products().iter().map(|p| p.id).collect();
    assert_eq!(available, vec![5, 7]);
    assert_eq!(response.products().len(), 4);
}

#[test]
fn cloned_product_keeps_every_field() {
    let first = product(9, "nine", &[true, false]);
    let copy = first.clone();
    assert_eq!(copy.id, 9);
    assert_eq!(copy.title, first.title);
    assert_eq!(copy.handle, "nine");
    assert_eq!(copy.variants.len(), 2);
    assert_eq!(copy.variants[0].option1.as_deref(), Some("Red"));
    assert_eq!(copy.variants[1].available, false);
    assert_eq!(copy.images[0].src, "https://cdn.example.com/a.png");
}

#[test]
fn product_link_replaces_the_path_of_the_store_address() {
    let client = ShopifyClient::new(String::from("https://shop.example.com/collections/all?page=2"));
    let link = client.get_product_link(&product(1, "blue-widget", &[true]));
    assert_eq!(
        link,
        Ok(String::from("https://shop.example.com/products/blue-widget?page=2"))
    );
}

#[test]
fn product_link_on_a_bare_store_address() {
    let client = ShopifyClient::new(String::from("https://shop.example.com"));
    let link = client.get_product_link(&product(1, "tea pot", &[true]));
    assert_eq!(link, Ok(String::from("https://shop.example.com/products/tea%20pot")));
}

#[test]
fn catalog_address_ends_in_products_json() {
    let client = ShopifyClient::new(String::from("https://shop.example.com/"));
    assert_eq!(
        client.all_products_url(),
        Ok(String::from("https://shop.example.com/products.json"))
    );
    assert_eq!(client.url(), "https://shop.example.com/");
}

#[test]
fn store_address_that_is_no_url_gives_no_link() {
    let client = ShopifyClient::new(String::from("not a url"));
    assert_eq!(client.all_products_url(), Err(LinkError::InvalidUrl));
    assert_eq!(
        client.get_product_link(&product(1, "x", &[true])),
        Err(LinkError::InvalidUrl)
    );
}

#[test]
fn store_address_without_host_gives_no_link() {
    let client = ShopifyClient::new(String::from("data:text/plain,Stuff"));
    assert_eq!(client.all_products_url(), Err(LinkError::MissingHost));
}

#[test]
fn overlong_handle_gives_no_link() {
    let client = ShopifyClient::new(String::from("https://shop.example.com"));
    let handle = "a".repeat(0x800_0000);
    assert_eq!(
        client.get_product_link(&product(1, &handle, &[true])),
        Err(LinkError::TooLong)
    );
}

#[test]
fn accept_link_judges_each_outcome() {
    assert_eq!(accept_link(None), Err(LinkError::InvalidUrl));
    assert_eq!(
        accept_link(Some((false, String::from("unix:/run/foo")))),
        Err(LinkError::MissingHost)
    );
    assert_eq!(
        accept_link(Some((true, String::from("https://a.example/")))),
        Ok(String::from("https://a.example/"))
    );
}

#[test]
fn default_headers_are_the_ten_browser_headers_in_order() {
    let headers = ShopifyClient::get_default_headers();
    let names: Vec<&str> = headers.iter().map(|h| h.0).collect();
    assert_eq!(
        names,
        vec![
            "pragma",
            "cache-control",
            "upgrade-insecure-requests",
            "user-agent",
            "accept",
            "sec-fetch-site",
            "sec-fetch-mode",
            "sec-fetch-user",
            "sec-fetch-dest",
            "accept-language",
        ]
    );
    assert_eq!(headers[0].1, "no-cache");
    assert_eq!(headers[2].1, "1");
    assert_eq!(headers[7].1, "?1");
    assert_eq!(headers[9].1, "en-US,en;q=0.9");
    assert!(headers[3].1.starts_with("Mozilla/5.0"));
}
