//! The catalog as the store reports it: products, their variants and images,
//! and the questions the monitor asks of one catalog response.

use vstd::prelude::*;

verus! {

/// One purchasable variant of a product.
#[derive(Debug)]
pub struct ProductVariant {
    pub id: i64,
    pub title: String,
    pub option1: Option<String>,
    pub option2: Option<String>,
    pub option3: Option<String>,
    pub available: bool,
    pub price: String,
}

/// Mathematical model of a [`ProductVariant`].
pub ghost struct ProductVariantView {
    pub id: i64,
    pub title: Seq<char>,
    pub option1: Option<Seq<char>>,
    pub option2: Option<Seq<char>>,
    pub option3: Option<Seq<char>>,
    pub available: bool,
    pub price: Seq<char>,
}

impl DeepView for ProductVariant {
    type V = ProductVariantView;

    open spec fn deep_view(&self) -> ProductVariantView {
        ProductVariantView {
            id: self.id,
            title: self.title@,
            option1: self.option1.deep_view(),
            option2: self.option2.deep_view(),
            option3: self.option3.deep_view(),
            available: self.available,
            price: self.price@,
        }
    }
}

impl View for ProductVariant {
    type V = ProductVariantView;

    open spec fn view(&self) -> ProductVariantView {
        self.deep_view()
    }
}

impl Clone for ProductVariant {
    fn clone(&self) -> (copy: Self)
        ensures
            copy@ == self@,
    {
        ProductVariant {
            id: self.id,
            title: self.title.clone(),
            option1: clone_optional_text(&self.option1),
            option2: clone_optional_text(&self.option2),
            option3: clone_optional_text(&self.option3),
            available: self.available,
            price: self.price.clone(),
        }
    }
}

/// Copies an optional string, keeping its text.
pub(crate) fn clone_optional_text(text: &Option<String>) -> (copy: Option<String>)
    ensures
        copy.deep_view() == text.deep_view(),
{
    match text {
        Some(s) => Some(s.clone()),
        None => None,
    }
}

/// One image of a product, by its address.
#[derive(Debug)]
pub struct ProductImage {
    pub src: String,
}

impl DeepView for ProductImage {
    type V = Seq<char>;

    open spec fn deep_view(&self) -> Seq<char> {
        self.src@
    }
}

impl View for ProductImage {
    type V = Seq<char>;

    open spec fn view(&self) -> Seq<char> {
        self.deep_view()
    }
}

impl Clone for ProductImage {
    fn clone(&self) -> (copy: Self)
        ensures
            copy@ == self@,
    {
        ProductImage { src: self.src.clone() }
    }
}

/// One catalog item.
#[derive(Debug)]
pub struct Product {
    pub id: i64,
    pub title: String,
    pub handle: String,
    pub variants: Vec<ProductVariant>,
    pub images: Vec<ProductImage>,
}

/// Mathematical model of a [`Product`].
pub ghost struct ProductView {
    pub id: i64,
    pub title: Seq<char>,
    pub handle: Seq<char>,
    pub variants: Seq<ProductVariantView>,
    pub images: Seq<Seq<char>>,
}

impl ProductView {
    /// A product is available when at least one of its variants is.
    pub open spec fn any_variant_available(self) -> bool {
        exists|i: int| 0 <= i < self.variants.len() && #[trigger] self.variants[i].available
    }
}

impl DeepView for Product {
    type V = ProductView;

    open spec fn deep_view(&self) -> ProductView {
        ProductView {
            id: self.id,
            title: self.title@,
            handle: self.handle@,
            variants: self.variants.deep_view(),
            images: self.images.deep_view(),
        }
    }
}

impl View for Product {
    type V = ProductView;

    open spec fn view(&self) -> ProductView {
        self.deep_view()
    }
}

impl Clone for Product {
    fn clone(&self) -> (copy: Self)
        ensures
            copy@ == self@,
    {
        let mut variants: Vec<ProductVariant> = Vec::new();
        let mut i: usize = 0;
        while i < self.variants.len()
            invariant
                i <= self.variants.len(),
                variants.len() == i,
                forall|k: int| 0 <= k < i ==> variants[k]@ == self.variants[k]@,
            decreases self.variants.len() - i,
        {
            variants.push(self.variants[i].clone());
            i += 1;
        }
        let mut images: Vec<ProductImage> = Vec::new();
        let mut j: usize = 0;
        while j < self.images.len()
            invariant
                j <= self.images.len(),
                images.len() == j,
                forall|k: int| 0 <= k < j ==> images[k]@ == self.images[k]@,
            decreases self.images.len() - j,
        {
            images.push(self.images[j].clone());
            j += 1;
        }
        assert(variants.deep_view() =~= self.variants.deep_view());
        assert(images.deep_view() =~= self.images.deep_view());
        Product {
            id: self.id,
            title: self.title.clone(),
            handle: self.handle.clone(),
            variants,
            images,
        }
    }
}

impl Product {
    /// Whether at least one variant of the product can be bought.
    pub fn any_variant_available(&self) -> (available: bool)
        ensures
            available == self@.any_variant_available(),
    {
        let mut i: usize = 0;
        while i < self.variants.len()
            invariant
                i <= self.variants.len(),
                forall|k: int| 0 <= k < i ==> !self.variants[k].available,
            decreases self.variants.len() - i,
        {
            if self.variants[i].available {
                assert(self@.variants[i as int].available);
                return true;
            }
            i += 1;
        }
        assert(forall|k: int| 0 <= k < self@.variants.len() ==> self@.variants[k].available
            == self.variants[k].available);
        false
    }
}

/// The predicate that keeps the available products of a catalog.
pub open spec fn is_available() -> spec_fn(ProductView) -> bool {
    |p: ProductView| p.any_variant_available()
}

/// The available products of a catalog, in catalog order.
pub open spec fn available_products(products: Seq<ProductView>) -> Seq<ProductView> {
    products.filter(is_available())
}

/// `i` is the position of the first product of the catalog that carries `id`.
pub open spec fn is_first_with_id(products: Seq<ProductView>, id: i64, i: int) -> bool {
    &&& 0 <= i < products.len()
    &&& products[i].id == id
    &&& forall|j: int| 0 <= j < i ==> (#[trigger] products[j]).id != id
}

/// No product of the catalog carries `id`.
pub open spec fn has_no_product(products: Seq<ProductView>, id: i64) -> bool {
    forall|j: int| 0 <= j < products.len() ==> (#[trigger] products[j]).id != id
}

/// One answer of the store to the request for its whole catalog.
#[derive(Debug)]
pub struct ProductResponse {
    products: Vec<Product>,
}

impl DeepView for ProductResponse {
    type V = Seq<ProductView>;

    closed spec fn deep_view(&self) -> Seq<ProductView> {
        self.products.deep_view()
    }
}

impl View for ProductResponse {
    type V = Seq<ProductView>;

    open spec fn view(&self) -> Seq<ProductView> {
        self.deep_view()
    }
}

impl Clone for ProductResponse {
    fn clone(&self) -> (copy: Self)
        ensures
            copy@ == self@,
    {
        let mut products: Vec<Product> = Vec::new();
        let mut i: usize = 0;
        while i < self.products.len()
            invariant
                i <= self.products.len(),
                products.len() == i,
                forall|k: int| 0 <= k < i ==> products[k]@ == self.products[k]@,
            decreases self.products.len() - i,
        {
            products.push(self.products[i].clone());
            i += 1;
        }
        assert(products.deep_view() =~= self.products.deep_view());
        ProductResponse { products }
    }
}

impl ProductResponse {
    /// A response that lists `products` in the given order.
    pub fn new(products: Vec<Product>) -> (response: Self)
        ensures
            response@ == products.deep_view(),
    {
        ProductResponse { products }
    }

    /// The products of the response, in catalog order.
    pub fn products(&self) -> (products: &Vec<Product>)
        ensures
            products.deep_view() == self@,
    {
        &self.products
    }

    /// The first product that carries `product_id`, if there is one.
    pub fn get_product(&self, product_id: i64) -> (found: Option<&Product>)
        ensures
            match found {
                Some(product) => exists|i: int|
                    is_first_with_id(self@, product_id, i) && product@ == self@[i],
                None => has_no_product(self@, product_id),
            },
    {
        let mut i: usize = 0;
        while i < self.products.len()
            invariant
                i <= self.products.len(),
                self@ == self.products.deep_view(),
                forall|k: int| 0 <= k < i ==> (#[trigger] self@[k]).id != product_id,
            decreases self.products.len() - i,
        {
            if self.products[i].id == product_id {
                assert(is_first_with_id(self@, product_id, i as int));
                return Some(&self.products[i]);
            }
            i += 1;
        }
        None
    }

    /// Whether the first product that carries `product_id` exists and is
    /// available.
    pub fn is_product_available(&self, product_id: i64) -> (available: bool)
        ensures
            available == exists|i: int|
                is_first_with_id(self@, product_id, i) && self@[i].any_variant_available(),
    {
        let product = self.get_product(product_id);
        match product {
            None => false,
            Some(product) => {
                let available = product.any_variant_available();
                proof {
                    let i = choose|i: int|
                        is_first_with_id(self@, product_id, i) && product@ == self@[i];
                    assert forall|j: int| is_first_with_id(self@, product_id, j) implies j == i by {
                        if j < i {
                            assert(self@[j].id != product_id);
                        } else if i < j {
                            assert(self@[i].id != product_id);
                        }
                    }
                }
                available
            },
        }
    }

    /// The available products of the response, in catalog order.
    pub fn get_available_products(&self) -> (available: Vec<&Product>)
        ensures
            available.deep_view() == available_products(self@),
    {
        let mut available: Vec<&Product> = Vec::new();
        let mut i: usize = 0;
        proof {
            reveal(Seq::filter);
            assert(self@.take(0) =~= Seq::<ProductView>::empty());
        }
        while i < self.products.len()
            invariant
                i <= self.products.len(),
                self@ == self.products.deep_view(),
                available.deep_view() == available_products(self@.take(i as int)),
            decreases self.products.len() - i,
        {
            let product = &self.products[i];
            proof {
                reveal(Seq::filter);
                assert(self@.take(i + 1).drop_last() =~= self@.take(i as int));
                assert(self@.take(i + 1).last() == product@);
            }
            let ghost before = available.deep_view();
            if product.any_variant_available() {
                available.push(product);
                assert(available.deep_view() =~= before.push(product@));
            }
            i += 1;
        }
        assert(self@.take(i as int) =~= self@);
        available
    }
}

/// The most characters that the store address, and the path put on it, may
/// have. In a URL a character takes at most twelve bytes (four of UTF-8,
/// each written as a percent sign and two digits), so an address and a path
/// of this length stay below the four gigabytes that the positions of the
/// URL parser can count.
pub const MAX_URL_PART: usize = 0x800_0000;

/// What the URL parser makes of the address `base` once its path is replaced
/// by `path`: nothing where `base` is no absolute URL; else whether the URL
/// names a host, and the text of the URL with the new path.
pub uninterp spec fn url_with_path(base: Seq<char>, path: Seq<char>) -> Option<(bool, Seq<char>)>;

/// Parses `base` with `reqwest::Url::parse`, replaces the path of the parsed
/// URL with `Url::set_path`, asks `Url::has_host`, and turns the URL back into
/// its text. Trusted: the outcome is [`url_with_path`] of the two texts, which
/// claims only that the parser is a function of them.
#[verifier::external_body]
fn replace_path(base: &str, path: &str) -> (replaced: Option<(bool, String)>)
    requires
        base@.len() <= MAX_URL_PART,
        path@.len() <= MAX_URL_PART,
    ensures
        replaced.deep_view() == url_with_path(base@, path@),
{
    match reqwest::Url::parse(base) {
        Ok(mut url) => {
            url.set_path(path);
            let has_host = url.has_host();
            Some((has_host, url.into()))
        },
        Err(_) => None,
    }
}

/// Why no link could be made on the store address.
#[derive(Debug, Clone, Copy, PartialEq, Eq, Structural)]
pub enum LinkError {
    /// The store address or the path has more than [`MAX_URL_PART`] characters.
    TooLong,
    /// The store address is no absolute URL.
    InvalidUrl,
    /// The store address is a URL without a host, so no request can go to it.
    MissingHost,
}

/// The link that an outcome of the URL parser stands for: the text, where the
/// address was a URL with a host.
pub open spec fn accepted_link(replaced: Option<(bool, Seq<char>)>) -> Result<
    Seq<char>,
    LinkError,
> {
    match replaced {
        None => Err(LinkError::InvalidUrl),
        Some((false, _)) => Err(LinkError::MissingHost),
        Some((true, link)) => Ok(link),
    }
}

/// The link to `path` on the store at `base`.
pub open spec fn link_on(base: Seq<char>, path: Seq<char>) -> Result<Seq<char>, LinkError> {
    if base.len() > MAX_URL_PART || path.len() > MAX_URL_PART {
        Err(LinkError::TooLong)
    } else {
        accepted_link(url_with_path(base, path))
    }
}

/// The path of the page of the product with the given handle.
pub open spec fn product_path(handle: Seq<char>) -> Seq<char> {
    "/products/"@ + handle
}

/// The path under which a store serves its whole catalog.
pub open spec fn catalog_path() -> Seq<char> {
    "/products.json"@
}

/// The text of a link, or the error, as a mathematical value.
pub open spec fn link_view(link: Result<String, LinkError>) -> Result<Seq<char>, LinkError> {
    match link {
        Ok(text) => Ok(text@),
        Err(error) => Err(error),
    }
}

/// Accepts or refuses what the URL parser made of a store address: the link
/// is good only where the address was a URL that names a host.
pub fn accept_link(replaced: Option<(bool, String)>) -> (link: Result<String, LinkError>)
    ensures
        link_view(link) == accepted_link(replaced.deep_view()),
{
    match replaced {
        None => Err(LinkError::InvalidUrl),
        Some((has_host, link)) => {
            if has_host {
                Ok(link)
            } else {
                Err(LinkError::MissingHost)
            }
        },
    }
}

/// The request headers that make the store answer as it answers a browser,
/// as pairs of name and value.
pub open spec fn default_headers() -> Seq<(Seq<char>, Seq<char>)> {
    seq![
        ("pragma"@, "no-cache"@),
        ("cache-control"@, "no-cache"@),
        ("upgrade-insecure-requests"@, "1"@),
        (
            "user-agent"@,
            "Mozilla/5.0 (Windows NT 10.0; Win64; x64) AppleWebKit/537.36 (KHTML, like Gecko) Chrome/86.0.4240.198 Safari/537.36"@,
        ),
        (
            "accept"@,
            "text/html,application/xhtml+xml,application/xml;q=0.9,image/avif,image/webp,image/apng,*/*;q=0.8,application/signed-exchange;v=b3;q=0.9"@,
        ),
        ("sec-fetch-site"@, "none"@),
        ("sec-fetch-mode"@, "navigate"@),
        ("sec-fetch-user"@, "?1"@),
        ("sec-fetch-dest"@, "document"@),
        ("accept-language"@, "en-US,en;q=0.9"@),
    ]
}

/// One store, by its address.
#[derive(Debug)]
pub struct ShopifyClient {
    url: String,
}

impl ShopifyClient {
    /// The address of the store.
    pub closed spec fn address(&self) -> Seq<char> {
        self.url@
    }

    /// The client for the store at `url`.
    pub fn new(url: String) -> (client: Self)
        ensures
            client.address() == url@,
    {
        ShopifyClient { url }
    }

    /// The address of the store.
    pub fn url(&self) -> (url: &String)
        ensures
            url@ == self.address(),
    {
        &self.url
    }

    /// The request headers to send with every request to the store, in the
    /// order in which they are set.
    pub fn get_default_headers() -> (headers: Vec<(&'static str, &'static str)>)
        ensures
            headers.deep_view() == default_headers(),
    {
        let headers = vec![
            ("pragma", "no-cache"),
            ("cache-control", "no-cache"),
            ("upgrade-insecure-requests", "1"),
            (
                "user-agent",
                "Mozilla/5.0 (Windows NT 10.0; Win64; x64) AppleWebKit/537.36 (KHTML, like Gecko) Chrome/86.0.4240.198 Safari/537.36",
            ),
            (
                "accept",
                "text/html,application/xhtml+xml,application/xml;q=0.9,image/avif,image/webp,image/apng,*/*;q=0.8,application/signed-exchange;v=b3;q=0.9",
            ),
            ("sec-fetch-site", "none"),
            ("sec-fetch-mode", "navigate"),
            ("sec-fetch-user", "?1"),
            ("sec-fetch-dest", "document"),
            ("accept-language", "en-US,en;q=0.9"),
        ];
        assert(headers.deep_view() =~= default_headers());
        headers
    }

    /// The link to `path` on the store.
    fn link_to(&self, path: &str) -> (link: Result<String, LinkError>)
        ensures
            link_view(link) == link_on(self.address(), path@),
    {
        if self.url.as_str().unicode_len() > MAX_URL_PART || path.unicode_len() > MAX_URL_PART {
            return Err(LinkError::TooLong);
        }
        accept_link(replace_path(self.url.as_str(), path))
    }

    /// The address from which the whole catalog of the store is fetched.
    pub fn all_products_url(&self) -> (link: Result<String, LinkError>)
        ensures
            link_view(link) == link_on(self.address(), catalog_path()),
    {
        self.link_to("/products.json")
    }

    /// The address of the page of `product` on the store.
    pub fn get_product_link(&self, product: &Product) -> (link: Result<String, LinkError>)
        ensures
            link_view(link) == link_on(self.address(), product_path(product@.handle)),
    {
        let mut path = String::from_str("/products/");
        path.append(product.handle.as_str());
        self.link_to(path.as_str())
    }
}

} // verus!
