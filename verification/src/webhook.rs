//! A plain webhook message: optional text and a list of described links,
//! assembled by a builder that is handed on from call to call.

use vstd::prelude::*;

verus! {

/// One described link of a message.
#[derive(Debug)]
pub struct EmbedData {
    title: String,
    description: String,
    url: String,
}

/// Mathematical model of an [`EmbedData`].
pub ghost struct EmbedDataView {
    pub title: Seq<char>,
    pub description: Seq<char>,
    pub url: Seq<char>,
}

impl DeepView for EmbedData {
    type V = EmbedDataView;

    closed spec fn deep_view(&self) -> EmbedDataView {
        EmbedDataView { title: self.title@, description: self.description@, url: self.url@ }
    }
}

impl View for EmbedData {
    type V = EmbedDataView;

    open spec fn view(&self) -> EmbedDataView {
        self.deep_view()
    }
}

impl EmbedData {
    /// The link to `url`, shown under `title` and explained by `desciption`.
    pub fn from_url(title: String, url: String, desciption: String) -> (embed: Self)
        ensures
            embed@ == (EmbedDataView { title: title@, description: desciption@, url: url@ }),
    {
        EmbedData { title, url, description: desciption }
    }

    /// The heading of the link.
    pub fn title(&self) -> (title: &String)
        ensures
            title@ == self@.title,
    {
        &self.title
    }

    /// The text that explains the link.
    pub fn description(&self) -> (description: &String)
        ensures
            description@ == self@.description,
    {
        &self.description
    }

    /// The address that the heading links to.
    pub fn url(&self) -> (url: &String)
        ensures
            url@ == self@.url,
    {
        &self.url
    }
}

/// One message for the chat service.
#[derive(Debug)]
pub struct Webhook {
    content: Option<String>,
    embeds: Vec<EmbedData>,
}

/// Mathematical model of a [`Webhook`] and of the [`WebhookBuilder`] that
/// assembles it.
pub ghost struct WebhookView {
    pub content: Option<Seq<char>>,
    pub embeds: Seq<EmbedDataView>,
}

impl DeepView for Webhook {
    type V = WebhookView;

    closed spec fn deep_view(&self) -> WebhookView {
        WebhookView { content: self.content.deep_view(), embeds: self.embeds.deep_view() }
    }
}

impl View for Webhook {
    type V = WebhookView;

    open spec fn view(&self) -> WebhookView {
        self.deep_view()
    }
}

impl Webhook {
    /// The text of the message, if it has one.
    pub fn content(&self) -> (content: &Option<String>)
        ensures
            content.deep_view() == self@.content,
    {
        &self.content
    }

    /// The links of the message, in display order.
    pub fn embeds(&self) -> (embeds: &Vec<EmbedData>)
        ensures
            embeds.deep_view() == self@.embeds,
    {
        &self.embeds
    }
}

/// Assembles a [`Webhook`]: starts without text and without links.
pub struct WebhookBuilder {
    content: Option<String>,
    embeds: Vec<EmbedData>,
}

impl DeepView for WebhookBuilder {
    type V = WebhookView;

    closed spec fn deep_view(&self) -> WebhookView {
        WebhookView { content: self.content.deep_view(), embeds: self.embeds.deep_view() }
    }
}

impl View for WebhookBuilder {
    type V = WebhookView;

    open spec fn view(&self) -> WebhookView {
        self.deep_view()
    }
}

impl Default for WebhookBuilder {
    fn default() -> (builder: Self)
        ensures
            builder@ == (WebhookView { content: None, embeds: Seq::empty() }),
    {
        let builder = WebhookBuilder { content: None, embeds: Vec::new() };
        assert(builder.embeds.deep_view() =~= Seq::<EmbedDataView>::empty());
        builder
    }
}

impl WebhookBuilder {
    /// A builder without text and without links.
    pub fn new() -> (builder: Self)
        ensures
            builder@ == (WebhookView { content: None, embeds: Seq::empty() }),
    {
        Self::default()
    }

    /// The builder with its text replaced by `content`.
    pub fn content(self, content: String) -> (builder: Self)
        ensures
            builder@ == (WebhookView { content: Some(content@), ..self@ }),
    {
        WebhookBuilder { content: Some(content), embeds: self.embeds }
    }

    /// The builder with its links replaced by `embeds`.
    pub fn embeds(self, embeds: Vec<EmbedData>) -> (builder: Self)
        ensures
            builder@ == (WebhookView { embeds: embeds.deep_view(), ..self@ }),
    {
        WebhookBuilder { content: self.content, embeds }
    }

    /// The message with the text and the links of the builder.
    pub fn build(self) -> (webhook: Webhook)
        ensures
            webhook@ == self@,
    {
        Webhook { content: self.content, embeds: self.embeds }
    }
}

/// Where the messages of one webhook are delivered.
#[derive(Debug)]
pub struct WebhookClient {
    url: String,
}

/// The address at which the chat service accepts messages for the webhook
/// `id` with the secret `token`.
pub open spec fn webhook_url(id: Seq<char>, token: Seq<char>) -> Seq<char> {
    "https://discord.com/api/webhooks/"@ + id + "/"@ + token
}

impl WebhookClient {
    /// The delivery address of the client.
    pub closed spec fn address(&self) -> Seq<char> {
        self.url@
    }

    /// The client that delivers to the webhook `id` with the secret `token`.
    pub fn new(id: String, token: String) -> (client: Self)
        ensures
            client.address() == webhook_url(id@, token@),
    {
        let mut url = String::from_str("https://discord.com/api/webhooks/");
        url.append(id.as_str());
        url.append("/");
        url.append(token.as_str());
        WebhookClient { url }
    }

    /// The delivery address of the client.
    pub fn url(&self) -> (url: &String)
        ensures
            url@ == self.address(),
    {
        &self.url
    }
}

} // verus!
