//! The alert as the chat service expects it: a webhook message with embeds,
//! and the builders that assemble one field by field.

use vstd::prelude::*;

verus! {

/// The picture shown beside an embed, by its address.
#[derive(Debug)]
pub struct EmbedThumbnail {
    url: String,
}

impl DeepView for EmbedThumbnail {
    type V = Seq<char>;

    closed spec fn deep_view(&self) -> Seq<char> {
        self.url@
    }
}

impl View for EmbedThumbnail {
    type V = Seq<char>;

    open spec fn view(&self) -> Seq<char> {
        self.deep_view()
    }
}

impl Clone for EmbedThumbnail {
    fn clone(&self) -> (copy: Self)
        ensures
            copy@ == self@,
    {
        EmbedThumbnail { url: self.url.clone() }
    }
}

impl EmbedThumbnail {
    /// A thumbnail that shows the picture at `url`.
    pub fn new(url: String) -> (thumbnail: EmbedThumbnail)
        ensures
            thumbnail@ == url@,
    {
        EmbedThumbnail { url }
    }

    /// The address of the picture.
    pub fn url(&self) -> (url: &String)
        ensures
            url@ == self@,
    {
        &self.url
    }
}

/// One labelled value inside an embed.
#[derive(Debug)]
pub struct EmbedField {
    name: String,
    value: String,
    inline: bool,
}

/// Mathematical model of an [`EmbedField`].
pub ghost struct EmbedFieldView {
    pub name: Seq<char>,
    pub value: Seq<char>,
    pub inline: bool,
}

impl DeepView for EmbedField {
    type V = EmbedFieldView;

    closed spec fn deep_view(&self) -> EmbedFieldView {
        EmbedFieldView { name: self.name@, value: self.value@, inline: self.inline }
    }
}

impl View for EmbedField {
    type V = EmbedFieldView;

    open spec fn view(&self) -> EmbedFieldView {
        self.deep_view()
    }
}

impl Clone for EmbedField {
    fn clone(&self) -> (copy: Self)
        ensures
            copy@ == self@,
    {
        EmbedField { name: self.name.clone(), value: self.value.clone(), inline: self.inline }
    }
}

impl EmbedField {
    /// The label of the field.
    pub fn name(&self) -> (name: &String)
        ensures
            name@ == self@.name,
    {
        &self.name
    }

    /// The text of the field.
    pub fn value(&self) -> (value: &String)
        ensures
            value@ == self@.value,
    {
        &self.value
    }

    /// Whether the field may share a row with its neighbours.
    pub fn inline(&self) -> (inline: bool)
        ensures
            inline == self@.inline,
    {
        self.inline
    }
}

/// Why a builder could not produce its value.
#[derive(Debug)]
pub enum BuilderError {
    /// A field without a default was never set; the payload is its name.
    UninitializedField(&'static str),
}

impl BuilderError {
    /// The name of the field that was never set.
    pub open spec fn field(self) -> Seq<char> {
        match self {
            BuilderError::UninitializedField(name) => name@,
        }
    }

    /// The message that describes the error.
    pub fn message(&self) -> (message: String)
        ensures
            message@ == "`"@ + self.field() + "` must be initialized"@,
    {
        match self {
            BuilderError::UninitializedField(name) => {
                let mut message = String::from_str("`");
                message.append(name);
                message.append("` must be initialized");
                message
            },
        }
    }
}

/// Assembles an [`EmbedField`]; every part must be set before `build`.
pub struct EmbedFieldBuilder {
    name: Option<String>,
    value: Option<String>,
    inline: Option<bool>,
}

/// Mathematical model of an [`EmbedFieldBuilder`]: what has been set so far.
pub ghost struct EmbedFieldBuilderView {
    pub name: Option<Seq<char>>,
    pub value: Option<Seq<char>>,
    pub inline: Option<bool>,
}

impl EmbedFieldBuilderView {
    /// What `build` yields: the field, or the name of the first part, in the
    /// order name, value, inline, that was never set.
    pub open spec fn build(self) -> Result<EmbedFieldView, Seq<char>> {
        if self.name is None {
            Err("name"@)
        } else if self.value is None {
            Err("value"@)
        } else if self.inline is None {
            Err("inline"@)
        } else {
            Ok(EmbedFieldView { name: self.name->0, value: self.value->0, inline: self.inline->0 })
        }
    }
}

impl DeepView for EmbedFieldBuilder {
    type V = EmbedFieldBuilderView;

    closed spec fn deep_view(&self) -> EmbedFieldBuilderView {
        EmbedFieldBuilderView {
            name: self.name.deep_view(),
            value: self.value.deep_view(),
            inline: self.inline,
        }
    }
}

impl View for EmbedFieldBuilder {
    type V = EmbedFieldBuilderView;

    open spec fn view(&self) -> EmbedFieldBuilderView {
        self.deep_view()
    }
}

impl Default for EmbedFieldBuilder {
    fn default() -> (builder: Self)
        ensures
            builder@ == (EmbedFieldBuilderView { name: None, value: None, inline: None }),
    {
        EmbedFieldBuilder { name: None, value: None, inline: None }
    }
}

impl EmbedFieldBuilder {
    /// Sets the label.
    pub fn name(&mut self, value: String) -> (builder: &mut Self)
        ensures
            (*builder)@ == (EmbedFieldBuilderView { name: Some(value@), ..old(self)@ }),
            *final(self) == *final(builder),
    {
        self.name = Some(value);
        self
    }

    /// Sets the text.
    pub fn value(&mut self, value: String) -> (builder: &mut Self)
        ensures
            (*builder)@ == (EmbedFieldBuilderView { value: Some(value@), ..old(self)@ }),
            *final(self) == *final(builder),
    {
        self.value = Some(value);
        self
    }

    /// Sets whether the field may share a row with its neighbours.
    pub fn inline(&mut self, value: bool) -> (builder: &mut Self)
        ensures
            (*builder)@ == (EmbedFieldBuilderView { inline: Some(value), ..old(self)@ }),
            *final(self) == *final(builder),
    {
        self.inline = Some(value);
        self
    }

    /// Builds the field, or names the first part that was never set.
    pub fn build(&self) -> (built: Result<EmbedField, BuilderError>)
        ensures
            match built {
                Ok(field) => self@.build() == Ok::<EmbedFieldView, Seq<char>>(field@),
                Err(error) => self@.build() == Err::<EmbedFieldView, Seq<char>>(error.field()),
            },
    {
        let name = match &self.name {
            Some(name) => name.clone(),
            None => return Err(BuilderError::UninitializedField("name")),
        };
        let value = match &self.value {
            Some(value) => value.clone(),
            None => return Err(BuilderError::UninitializedField("value")),
        };
        let inline = match self.inline {
            Some(inline) => inline,
            None => return Err(BuilderError::UninitializedField("inline")),
        };
        Ok(EmbedField { name, value, inline })
    }
}

/// One card of a webhook message: a titled link with an optional picture and
/// a list of fields.
#[derive(Debug)]
pub struct EmbedData {
    title: String,
    url: String,
    thumbnail: Option<EmbedThumbnail>,
    fields: Vec<EmbedField>,
}

/// Mathematical model of an [`EmbedData`].
pub ghost struct EmbedDataView {
    pub title: Seq<char>,
    pub url: Seq<char>,
    pub thumbnail: Option<Seq<char>>,
    pub fields: Seq<EmbedFieldView>,
}

impl DeepView for EmbedData {
    type V = EmbedDataView;

    closed spec fn deep_view(&self) -> EmbedDataView {
        EmbedDataView {
            title: self.title@,
            url: self.url@,
            thumbnail: self.thumbnail.deep_view(),
            fields: self.fields.deep_view(),
        }
    }
}

impl View for EmbedData {
    type V = EmbedDataView;

    open spec fn view(&self) -> EmbedDataView {
        self.deep_view()
    }
}

/// Copies an optional thumbnail, keeping its address.
fn clone_optional_thumbnail(thumbnail: &Option<EmbedThumbnail>) -> (copy: Option<EmbedThumbnail>)
    ensures
        copy.deep_view() == thumbnail.deep_view(),
{
    match thumbnail {
        Some(thumbnail) => Some(thumbnail.clone()),
        None => None,
    }
}

/// Copies a list of fields, keeping their order and contents.
fn clone_fields(fields: &Vec<EmbedField>) -> (copy: Vec<EmbedField>)
    ensures
        copy.deep_view() == fields.deep_view(),
{
    let mut copy: Vec<EmbedField> = Vec::new();
    let mut i: usize = 0;
    while i < fields.len()
        invariant
            i <= fields.len(),
            copy.len() == i,
            forall|k: int| 0 <= k < i ==> copy[k]@ == fields[k]@,
        decreases fields.len() - i,
    {
        copy.push(fields[i].clone());
        i += 1;
    }
    assert(copy.deep_view() =~= fields.deep_view());
    copy
}

/// Copies a list of embeds, keeping their order and contents.
fn clone_embeds(embeds: &Vec<EmbedData>) -> (copy: Vec<EmbedData>)
    ensures
        copy.deep_view() == embeds.deep_view(),
{
    let mut copy: Vec<EmbedData> = Vec::new();
    let mut i: usize = 0;
    while i < embeds.len()
        invariant
            i <= embeds.len(),
            copy.len() == i,
            forall|k: int| 0 <= k < i ==> copy[k]@ == embeds[k]@,
        decreases embeds.len() - i,
    {
        copy.push(embeds[i].clone());
        i += 1;
    }
    assert(copy.deep_view() =~= embeds.deep_view());
    copy
}

impl Clone for EmbedData {
    fn clone(&self) -> (copy: Self)
        ensures
            copy@ == self@,
    {
        EmbedData {
            title: self.title.clone(),
            url: self.url.clone(),
            thumbnail: clone_optional_thumbnail(&self.thumbnail),
            fields: clone_fields(&self.fields),
        }
    }
}

impl EmbedData {
    /// The heading of the card.
    pub fn title(&self) -> (title: &String)
        ensures
            title@ == self@.title,
    {
        &self.title
    }

    /// The address that the heading links to.
    pub fn url(&self) -> (url: &String)
        ensures
            url@ == self@.url,
    {
        &self.url
    }

    /// The picture of the card, if it has one.
    pub fn thumbnail(&self) -> (thumbnail: &Option<EmbedThumbnail>)
        ensures
            thumbnail.deep_view() == self@.thumbnail,
    {
        &self.thumbnail
    }

    /// The fields of the card, in display order.
    pub fn fields(&self) -> (fields: &Vec<EmbedField>)
        ensures
            fields.deep_view() == self@.fields,
    {
        &self.fields
    }
}

/// Assembles an [`EmbedData`]. Title, address and fields must be set before
/// `build`; the picture may be left out.
pub struct EmbedDataBuilder {
    title: Option<String>,
    url: Option<String>,
    thumbnail: Option<Option<EmbedThumbnail>>,
    fields: Option<Vec<EmbedField>>,
}

/// Mathematical model of an [`EmbedDataBuilder`]: what has been set so far.
pub ghost struct EmbedDataBuilderView {
    pub title: Option<Seq<char>>,
    pub url: Option<Seq<char>>,
    pub thumbnail: Option<Option<Seq<char>>>,
    pub fields: Option<Seq<EmbedFieldView>>,
}

impl EmbedDataBuilderView {
    /// The builder on which nothing has been set.
    pub open spec fn unset() -> EmbedDataBuilderView {
        EmbedDataBuilderView { title: None, url: None, thumbnail: None, fields: None }
    }

    /// The fields set so far, none if the list was never touched.
    pub open spec fn fields_so_far(self) -> Seq<EmbedFieldView> {
        match self.fields {
            Some(fields) => fields,
            None => Seq::empty(),
        }
    }

    /// What `build` yields: the card, or the name of the first required part,
    /// in the order title, url, fields, that was never set. A picture that was
    /// never set is no picture.
    pub open spec fn build(self) -> Result<EmbedDataView, Seq<char>> {
        if self.title is None {
            Err("title"@)
        } else if self.url is None {
            Err("url"@)
        } else if self.fields is None {
            Err("fields"@)
        } else {
            Ok(
                EmbedDataView {
                    title: self.title->0,
                    url: self.url->0,
                    thumbnail: match self.thumbnail {
                        Some(thumbnail) => thumbnail,
                        None => None,
                    },
                    fields: self.fields->0,
                },
            )
        }
    }
}

impl DeepView for EmbedDataBuilder {
    type V = EmbedDataBuilderView;

    closed spec fn deep_view(&self) -> EmbedDataBuilderView {
        EmbedDataBuilderView {
            title: self.title.deep_view(),
            url: self.url.deep_view(),
            thumbnail: self.thumbnail.deep_view(),
            fields: self.fields.deep_view(),
        }
    }
}

impl View for EmbedDataBuilder {
    type V = EmbedDataBuilderView;

    open spec fn view(&self) -> EmbedDataBuilderView {
        self.deep_view()
    }
}

impl Default for EmbedDataBuilder {
    fn default() -> (builder: Self)
        ensures
            builder@ == EmbedDataBuilderView::unset(),
    {
        EmbedDataBuilder { title: None, url: None, thumbnail: None, fields: None }
    }
}

impl EmbedDataBuilder {
    /// Sets the heading.
    pub fn title(&mut self, value: String) -> (builder: &mut Self)
        ensures
            (*builder)@ == (EmbedDataBuilderView { title: Some(value@), ..old(self)@ }),
            *final(self) == *final(builder),
    {
        self.title = Some(value);
        self
    }

    /// Sets the address that the heading links to.
    pub fn url(&mut self, value: String) -> (builder: &mut Self)
        ensures
            (*builder)@ == (EmbedDataBuilderView { url: Some(value@), ..old(self)@ }),
            *final(self) == *final(builder),
    {
        self.url = Some(value);
        self
    }

    /// Sets the picture.
    pub fn thumbnail(&mut self, value: EmbedThumbnail) -> (builder: &mut Self)
        ensures
            (*builder)@ == (EmbedDataBuilderView {
                thumbnail: Some(Some(value@)),
                ..old(self)@
            }),
            *final(self) == *final(builder),
    {
        self.thumbnail = Some(Some(value));
        self
    }

    /// Replaces the list of fields.
    pub fn fields(&mut self, value: Vec<EmbedField>) -> (builder: &mut Self)
        ensures
            (*builder)@ == (EmbedDataBuilderView {
                fields: Some(value.deep_view()),
                ..old(self)@
            }),
            *final(self) == *final(builder),
    {
        self.fields = Some(value);
        self
    }

    /// Appends one field to the list, starting the list if it was never set.
    pub fn add_field(&mut self, item: EmbedField) -> (builder: &mut Self)
        ensures
            (*builder)@ == (EmbedDataBuilderView {
                fields: Some(old(self)@.fields_so_far().push(item@)),
                ..old(self)@
            }),
            *final(self) == *final(builder),
    {
        let mut fields = match self.fields.take() {
            Some(fields) => fields,
            None => Vec::new(),
        };
        let ghost before = fields.deep_view();
        assert(before =~= old(self)@.fields_so_far());
        fields.push(item);
        assert(fields.deep_view() =~= before.push(item@));
        self.fields = Some(fields);
        self
    }

    /// Builds the card, or names the first required part that was never set.
    pub fn build(&self) -> (built: Result<EmbedData, BuilderError>)
        ensures
            match built {
                Ok(embed) => self@.build() == Ok::<EmbedDataView, Seq<char>>(embed@),
                Err(error) => self@.build() == Err::<EmbedDataView, Seq<char>>(error.field()),
            },
    {
        let title = match &self.title {
            Some(title) => title.clone(),
            None => return Err(BuilderError::UninitializedField("title")),
        };
        let url = match &self.url {
            Some(url) => url.clone(),
            None => return Err(BuilderError::UninitializedField("url")),
        };
        let thumbnail = match &self.thumbnail {
            Some(thumbnail) => clone_optional_thumbnail(thumbnail),
            None => None,
        };
        let fields = match &self.fields {
            Some(fields) => clone_fields(fields),
            None => return Err(BuilderError::UninitializedField("fields")),
        };
        Ok(EmbedData { title, url, thumbnail, fields })
    }
}

/// One message for the chat service: optional text and a list of cards.
#[derive(Debug)]
pub struct Webhook {
    content: Option<String>,
    embeds: Vec<EmbedData>,
}

/// Mathematical model of a [`Webhook`].
pub ghost struct WebhookView {
    pub content: Option<Seq<char>>,
    pub embeds: Seq<EmbedDataView>,
}

impl DeepView for Webhook {
    type V = WebhookView;

    closed spec fn deep_view(&self) -> WebhookView {
        WebhookView { content: self.content.deep_view(), embeds: self.embeds.deep_view() }
    }
}

impl View for Webhook {
    type V = WebhookView;

    open spec fn view(&self) -> WebhookView {
        self.deep_view()
    }
}

impl Webhook {
    /// A builder on which nothing has been set.
    pub fn builder() -> (builder: WebhookBuilder)
        ensures
            builder@ == WebhookBuilderView::unset(),
    {
        WebhookBuilder::default()
    }

    /// The text of the message, if it has one.
    pub fn content(&self) -> (content: &Option<String>)
        ensures
            content.deep_view() == self@.content,
    {
        &self.content
    }

    /// The cards of the message, in display order.
    pub fn embeds(&self) -> (embeds: &Vec<EmbedData>)
        ensures
            embeds.deep_view() == self@.embeds,
    {
        &self.embeds
    }
}

/// Assembles a [`Webhook`]; every part may be left out.
pub struct WebhookBuilder {
    content: Option<Option<String>>,
    embeds: Option<Vec<EmbedData>>,
}

/// Mathematical model of a [`WebhookBuilder`]: what has been set so far.
pub ghost struct WebhookBuilderView {
    pub content: Option<Option<Seq<char>>>,
    pub embeds: Option<Seq<EmbedDataView>>,
}

impl WebhookBuilderView {
    /// The builder on which nothing has been set.
    pub open spec fn unset() -> WebhookBuilderView {
        WebhookBuilderView { content: None, embeds: None }
    }

    /// The cards set so far, none if the list was never touched.
    pub open spec fn embeds_so_far(self) -> Seq<EmbedDataView> {
        match self.embeds {
            Some(embeds) => embeds,
            None => Seq::empty(),
        }
    }

    /// What `build` yields: text that was never set is no text, and cards that
    /// were never set are no cards.
    pub open spec fn build(self) -> WebhookView {
        WebhookView {
            content: match self.content {
                Some(content) => content,
                None => None,
            },
            embeds: self.embeds_so_far(),
        }
    }
}

impl DeepView for WebhookBuilder {
    type V = WebhookBuilderView;

    closed spec fn deep_view(&self) -> WebhookBuilderView {
        WebhookBuilderView { content: self.content.deep_view(), embeds: self.embeds.deep_view() }
    }
}

impl View for WebhookBuilder {
    type V = WebhookBuilderView;

    open spec fn view(&self) -> WebhookBuilderView {
        self.deep_view()
    }
}

impl Default for WebhookBuilder {
    fn default() -> (builder: Self)
        ensures
            builder@ == WebhookBuilderView::unset(),
    {
        WebhookBuilder { content: None, embeds: None }
    }
}

impl WebhookBuilder {
    /// Sets the text.
    pub fn content(&mut self, value: String) -> (builder: &mut Self)
        ensures
            (*builder)@ == (WebhookBuilderView { content: Some(Some(value@)), ..old(self)@ }),
            *final(self) == *final(builder),
    {
        self.content = Some(Some(value));
        self
    }

    /// Replaces the list of cards.
    pub fn embeds(&mut self, value: Vec<EmbedData>) -> (builder: &mut Self)
        ensures
            (*builder)@ == (WebhookBuilderView {
                embeds: Some(value.deep_view()),
                ..old(self)@
            }),
            *final(self) == *final(builder),
    {
        self.embeds = Some(value);
        self
    }

    /// Appends one card to the list, starting the list if it was never set.
    pub fn add_embed(&mut self, item: EmbedData) -> (builder: &mut Self)
        ensures
            (*builder)@ == (WebhookBuilderView {
                embeds: Some(old(self)@.embeds_so_far().push(item@)),
                ..old(self)@
            }),
            *final(self) == *final(builder),
    {
        let mut embeds = match self.embeds.take() {
            Some(embeds) => embeds,
            None => Vec::new(),
        };
        let ghost before = embeds.deep_view();
        assert(before =~= old(self)@.embeds_so_far());
        embeds.push(item);
        assert(embeds.deep_view() =~= before.push(item@));
        self.embeds = Some(embeds);
        self
    }

    /// Builds the message from what has been set. It cannot fail: no part of
    /// a message is required.
    pub fn build(&self) -> (built: Result<Webhook, BuilderError>)
        ensures
            built matches Ok(webhook) && webhook@ == self@.build(),
    {
        let content = match &self.content {
            Some(content) => crate::shopify::clone_optional_text(content),
            None => None,
        };
        let embeds = match &self.embeds {
            Some(embeds) => clone_embeds(embeds),
            None => Vec::new(),
        };
        assert(embeds.deep_view() =~= self@.embeds_so_far());
        Ok(Webhook { content, embeds })
    }
}

/// Where the alerts of one webhook are delivered.
#[derive(Debug)]
pub struct WebhookClient {
    url: String,
}

/// The address at which the chat service accepts messages for the webhook
/// `id` with the secret `token`.
pub open spec fn webhook_url(id: Seq<char>, token: Seq<char>) -> Seq<char> {
    "https://discord.com/api/webhooks/"@ + id + "/"@ + token
}

impl WebhookClient {
    /// The delivery address of the client.
    pub closed spec fn address(&self) -> Seq<char> {
        self.url@
    }

    /// The client that delivers to the webhook `id` with the secret `token`.
    pub fn new(id: String, token: String) -> (client: Self)
        ensures
            client.address() == webhook_url(id@, token@),
    {
        let mut url = String::from_str("https://discord.com/api/webhooks/");
        url.append(id.as_str());
        url.append("/");
        url.append(token.as_str());
        WebhookClient { url }
    }

    /// The delivery address of the client.
    pub fn url(&self) -> (url: &String)
        ensures
            url@ == self.address(),
    {
        &self.url
    }
}

} // verus!
