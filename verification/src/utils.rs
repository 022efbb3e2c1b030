//! The recurring schedule of the polls, the wait until the next one, and the
//! alert that announces one product.

use crate::discord::{
    BuilderError, EmbedDataBuilder, EmbedDataView, EmbedFieldBuilder, EmbedFieldView,
    EmbedThumbnail, Webhook, WebhookBuilder, WebhookView,
};
use crate::shopify::{
    link_on, product_path, LinkError, Product, ProductVariantView, ProductView, ShopifyClient,
};
use chrono::TimeZone;
use vstd::prelude::*;

verus! {

/// Whether the cron library accepts `expression` as a recurrence rule.
pub uninterp spec fn cron_accepts(expression: Seq<char>) -> bool;

/// The rule that stands in where none is given or the given one is refused:
/// once an hour, on the hour.
pub open spec fn hourly() -> Seq<char> {
    "@hourly"@
}

/// Asks `croner::Cron::new(..).parse()` whether it accepts `expression`.
/// Trusted: the parse succeeds exactly on the expressions that
/// [`cron_accepts`] names, and the nickname for the hourly rule is among
/// them, as the library's table of nicknames shows.
#[verifier::external_body]
fn cron_parses(expression: &str) -> (accepted: bool)
    ensures
        accepted == cron_accepts(expression@),
        expression@ == hourly() ==> accepted,
{
    croner::Cron::new(expression).parse().is_ok()
}

/// The earliest instant, in milliseconds since the Unix epoch, that is handed
/// to the calendar: well inside the range of dates that the date library can
/// hold in any time zone.
pub const MIN_INSTANT_MS: i64 = -8_200_000_000_000_000;

/// The latest instant that is handed to the calendar.
pub const MAX_INSTANT_MS: i64 = 8_200_000_000_000_000;

/// Parses `expression` with `croner::Cron::new(..).parse()` and asks
/// `croner::Cron::find_next_occurrence` of the parsed rule for its first
/// occurrence from `now_ms` on, read as an instant in the machine's local
/// time zone (`chrono::Local`); `inclusive` says whether `now_ms` itself
/// counts. Returns the occurrence in milliseconds since the Unix epoch, and
/// nothing where the library refuses the expression or finds no occurrence.
/// Trusted, and nothing is claimed of the instant that comes back: in a
/// repeated local hour it may lie before `now_ms`.
#[verifier::external_body]
fn next_occurrence_from(expression: &str, now_ms: i64, inclusive: bool) -> (next: Option<i64>)
    requires
        MIN_INSTANT_MS <= now_ms <= MAX_INSTANT_MS,
{
    let cron = croner::Cron::new(expression).parse().ok()?;
    let now = chrono::Local.timestamp_millis_opt(now_ms).single()?;
    match cron.find_next_occurrence(&now, inclusive) {
        Ok(next) => Some(next.timestamp_millis()),
        Err(_) => None,
    }
}

/// The rule by which polls recur: an expression that the cron library
/// accepts. The expression is the whole of the schedule; the rule is parsed
/// from it wherever an occurrence is asked for.
pub struct Scheduler {
    expression: String,
}

impl View for Scheduler {
    type V = Seq<char>;

    closed spec fn view(&self) -> Seq<char> {
        self.expression@
    }
}

impl Scheduler {
    /// Every schedule holds an expression that the cron library accepts.
    #[verifier::type_invariant]
    spec fn accepted(self) -> bool {
        cron_accepts(self.expression@)
    }

    /// The expression of the schedule.
    pub open spec fn expression(&self) -> Seq<char> {
        self@
    }

    /// The schedule for `expression`, where the cron library accepts it.
    pub fn parse(expression: &str) -> (parsed: Option<Scheduler>)
        ensures
            parsed.is_some() == cron_accepts(expression@),
            expression@ == hourly() ==> parsed.is_some(),
            parsed matches Some(scheduler) ==> scheduler@ == expression@,
    {
        if cron_parses(expression) {
            Some(Scheduler { expression: String::from_str(expression) })
        } else {
            None
        }
    }

    /// The schedule that recurs once an hour, on the hour.
    pub fn hourly() -> (scheduler: Scheduler)
        ensures
            scheduler@ == hourly(),
            cron_accepts(scheduler@),
    {
        Scheduler::parse("@hourly").unwrap()
    }

    /// The expression of the schedule.
    pub fn as_str(&self) -> (expression: &str)
        ensures
            expression@ == self@,
            cron_accepts(expression@),
    {
        proof {
            use_type_invariant(self);
        }
        self.expression.as_str()
    }
}

/// The expression that takes effect for a configured one: the configured
/// expression where there is one and the cron library accepts it, the hourly
/// rule otherwise.
pub open spec fn effective_expression(configured: Option<Seq<char>>) -> Seq<char> {
    match configured {
        Some(expression) => if cron_accepts(expression) {
            expression
        } else {
            hourly()
        },
        None => hourly(),
    }
}

/// An expression that the cron library refuses takes effect exactly as the
/// hourly rule written out does, and so does a missing one.
pub proof fn law_refused_expression_is_hourly(configured: Option<Seq<char>>)
    requires
        configured matches Some(expression) ==> !cron_accepts(expression),
    ensures
        effective_expression(configured) == effective_expression(Some(hourly())),
{
}

/// The schedule for the configured expression; never fails: without an
/// expression, or with one that the cron library refuses, polls recur hourly.
pub fn get_scheduler(configured: Option<&str>) -> (scheduler: Scheduler)
    ensures
        scheduler@ == effective_expression(configured.deep_view()),
        cron_accepts(scheduler@),
{
    match configured {
        Some(expression) => match Scheduler::parse(expression) {
            Some(scheduler) => scheduler,
            None => Scheduler::hourly(),
        },
        None => Scheduler::hourly(),
    }
}

/// Why no wait until the next poll could be computed.
#[derive(Debug, Clone, Copy, PartialEq, Eq, Structural)]
pub enum ScheduleError {
    /// The schedule has no next occurrence, or the instant cannot be placed
    /// on the calendar.
    Undefined,
    /// The next occurrence lies before the instant it was asked for.
    Negative,
}

/// The wait from `now_ms` until the occurrence `next`, both in milliseconds
/// since the Unix epoch: the difference, unless there is no occurrence or it
/// lies in the past.
pub open spec fn delay_between(now_ms: i64, next: Option<i64>) -> Result<u64, ScheduleError> {
    match next {
        None => Err(ScheduleError::Undefined),
        Some(at) => if at < now_ms {
            Err(ScheduleError::Negative)
        } else {
            Ok((at - now_ms) as u64)
        },
    }
}

/// An occurrence strictly after `now_ms` gives a wait that is strictly
/// positive and ends exactly at the occurrence, hence strictly after `now_ms`.
pub proof fn law_delay_is_positive(now_ms: i64, at: i64)
    requires
        now_ms < at,
    ensures
        delay_between(now_ms, Some(at)) matches Ok(delay) && delay > 0 && now_ms + delay == at
            && now_ms + delay > now_ms,
{
}

/// The wait from `now_ms` until the occurrence `next`.
pub fn delay_until(now_ms: i64, next: Option<i64>) -> (delay: Result<u64, ScheduleError>)
    ensures
        delay == delay_between(now_ms, next),
        next matches Some(at) ==> (now_ms < at ==> (delay matches Ok(ms) && ms > 0 && now_ms + ms
            == at)),
{
    match next {
        None => Err(ScheduleError::Undefined),
        Some(at) => {
            if at < now_ms {
                Err(ScheduleError::Negative)
            } else {
                let wide: i128 = at as i128 - now_ms as i128;
                Ok(wide as u64)
            }
        },
    }
}

/// Whether `now_ms` is an instant that can be placed on the calendar.
pub open spec fn is_instant(now_ms: i64) -> bool {
    MIN_INSTANT_MS <= now_ms <= MAX_INSTANT_MS
}

/// The wait from `now_ms` until the occurrence `next`, where `now_ms` is an
/// instant that can be placed on the calendar at all.
pub open spec fn wait_from(now_ms: i64, next: Option<i64>) -> Result<u64, ScheduleError> {
    if is_instant(now_ms) {
        delay_between(now_ms, next)
    } else {
        Err(ScheduleError::Undefined)
    }
}

impl Scheduler {
    /// The first occurrence of the schedule strictly after `now_ms`, in
    /// milliseconds since the Unix epoch; none where the schedule has none or
    /// `now_ms` cannot be placed on the calendar. The occurrence is found in
    /// the machine's local time, so nothing more is known of it.
    pub fn next_occurrence(&self, now_ms: i64) -> (next: Option<i64>)
        ensures
            !is_instant(now_ms) ==> next is None,
    {
        if now_ms < MIN_INSTANT_MS || now_ms > MAX_INSTANT_MS {
            return None;
        }
        next_occurrence_from(self.expression.as_str(), now_ms, false)
    }
}

/// The wait, in milliseconds, from `now_ms` until the schedule next occurs
/// strictly after it. The occurrence is found in the machine's local time, so
/// the contract states what holds of every occurrence that can come back.
pub fn delay_until_next(scheduler: &Scheduler, now_ms: i64) -> (delay: Result<u64, ScheduleError>)
    ensures
        !is_instant(now_ms) ==> delay == Err::<u64, ScheduleError>(ScheduleError::Undefined),
        exists|next: Option<i64>| delay == wait_from(now_ms, next),
        delay matches Ok(ms) ==> now_ms + ms <= i64::MAX,
{
    let next = scheduler.next_occurrence(now_ms);
    assert(delay_between(now_ms, next) == wait_from(now_ms, next));
    delay_until(now_ms, next)
}

/// The field that shows the stock of one variant under the variant's title.
pub open spec fn stock_field(variant: ProductVariantView) -> EmbedFieldView {
    EmbedFieldView {
        name: variant.title,
        value: if variant.available {
            "In stock"@
        } else {
            "Not in stock"@
        },
        inline: true,
    }
}

/// The fields that show the stock of the given variants, in their order.
pub open spec fn stock_fields(variants: Seq<ProductVariantView>) -> Seq<EmbedFieldView> {
    Seq::new(variants.len(), |i: int| stock_field(variants[i]))
}

/// The card that announces `product`: its title linked to `link`, its first
/// image if it has one, and one stock field for each variant.
pub open spec fn product_embed(link: Seq<char>, product: ProductView) -> EmbedDataView {
    EmbedDataView {
        title: product.title,
        url: link,
        thumbnail: if product.images.len() > 0 {
            Some(product.images[0])
        } else {
            None
        },
        fields: stock_fields(product.variants),
    }
}

/// The alert that announces `product` under `link`: a message without text
/// that holds the one card of the product. A product without variants has no
/// alert, because a card needs its list of fields: the error names that part.
pub open spec fn product_webhook(link: Seq<char>, product: ProductView) -> Result<
    WebhookView,
    Seq<char>,
> {
    if product.variants.len() == 0 {
        Err("fields"@)
    } else {
        Ok(WebhookView { content: None, embeds: seq![product_embed(link, product)] })
    }
}

/// Builds the alert that announces `product` under `link`.
pub fn webhook_with_link(link: String, product: &Product) -> (alert: Result<Webhook, BuilderError>)
    ensures
        match alert {
            Ok(webhook) => product_webhook(link@, product@) == Ok::<WebhookView, Seq<char>>(
                webhook@,
            ),
            Err(error) => product_webhook(link@, product@) == Err::<WebhookView, Seq<char>>(
                error.field(),
            ),
        },
{
    let mut embed_builder = EmbedDataBuilder::default();
    embed_builder.title(product.title.clone());
    embed_builder.url(link);
    if product.images.len() > 0 {
        embed_builder.thumbnail(EmbedThumbnail::new(product.images[0].src.clone()));
    }
    let ghost wanted = product_embed(link@, product@);
    let mut i: usize = 0;
    while i < product.variants.len()
        invariant
            i <= product.variants.len(),
            embed_builder@.title == Some(wanted.title),
            embed_builder@.url == Some(wanted.url),
            embed_builder@.thumbnail == if product@.images.len() > 0 {
                Some(Some(product@.images[0]))
            } else {
                None::<Option<Seq<char>>>
            },
            i == 0 ==> embed_builder@.fields is None,
            i > 0 ==> embed_builder@.fields == Some(
                stock_fields(product@.variants.take(i as int)),
            ),
        decreases product.variants.len() - i,
    {
        let variant = &product.variants[i];
        let mut field_builder = EmbedFieldBuilder::default();
        field_builder.name(variant.title.clone());
        field_builder.inline(true);
        field_builder.value(
            String::from_str(
                if variant.available {
                    "In stock"
                } else {
                    "Not in stock"
                },
            ),
        );
        let field = match field_builder.build() {
            Ok(field) => field,
            Err(error) => {
                return Err(error);
            },
        };
        assert(field@ == stock_field(product@.variants[i as int]));
        let ghost before = embed_builder@.fields_so_far();
        embed_builder.add_field(field);
        assert(before.push(field@) =~= stock_fields(product@.variants.take(i + 1)));
        i += 1;
    }
    assert(product@.variants.take(i as int) =~= product@.variants);
    let embed = match embed_builder.build() {
        Ok(embed) => embed,
        Err(error) => {
            return Err(error);
        },
    };
    let mut hook_builder = WebhookBuilder::default();
    hook_builder.add_embed(embed);
    let built = hook_builder.build();
    assert(built matches Ok(webhook) && webhook@.embeds =~= seq![product_embed(link@, product@)]);
    built
}

/// Why no alert could be made for a product.
#[derive(Debug)]
pub enum AlertError {
    /// No link to the product's page could be made on the store address.
    Link(LinkError),
    /// A part of the alert was never set.
    Build(BuilderError),
}

/// Mathematical model of an [`AlertError`].
pub ghost enum AlertFailure {
    Link(LinkError),
    Build(Seq<char>),
}

impl View for AlertError {
    type V = AlertFailure;

    open spec fn view(&self) -> AlertFailure {
        match self {
            AlertError::Link(error) => AlertFailure::Link(*error),
            AlertError::Build(error) => AlertFailure::Build(error.field()),
        }
    }
}

/// The alert that announces `product` of the store at `address`, once the
/// link to its page is `link`.
pub open spec fn alert_with(link: Result<Seq<char>, LinkError>, product: ProductView) -> Result<
    WebhookView,
    AlertFailure,
> {
    match link {
        Err(error) => Err(AlertFailure::Link(error)),
        Ok(link) => match product_webhook(link, product) {
            Ok(webhook) => Ok(webhook),
            Err(field) => Err(AlertFailure::Build(field)),
        },
    }
}

/// The alert that announces `product` of the store at `address`.
pub open spec fn product_alert(address: Seq<char>, product: ProductView) -> Result<
    WebhookView,
    AlertFailure,
> {
    alert_with(link_on(address, product_path(product.handle)), product)
}

/// An alert, or the reason why there is none, as a mathematical value.
pub open spec fn alert_view(alert: Result<Webhook, AlertError>) -> Result<
    WebhookView,
    AlertFailure,
> {
    match alert {
        Ok(webhook) => Ok(webhook@),
        Err(error) => Err(error@),
    }
}

/// Builds the alert that announces `product`, linked to its page on the
/// store of `client`.
pub fn webhook_from_product(client: &ShopifyClient, product: &Product) -> (alert: Result<
    Webhook,
    AlertError,
>)
    ensures
        alert_view(alert) == product_alert(client.address(), product@),
{
    let link = match client.get_product_link(product) {
        Ok(link) => link,
        Err(error) => {
            return Err(AlertError::Link(error));
        },
    };
    match webhook_with_link(link, product) {
        Ok(webhook) => Ok(webhook),
        Err(error) => Err(AlertError::Build(error)),
    }
}

} // verus!
