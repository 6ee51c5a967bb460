//! The verification e-mail: its link, its text, and the message handed to
//! the SMTP transport.

use vstd::prelude::*;
use vstd::string::*;

use crate::config::SmtpConfig;
use crate::text::chars_of;
use crate::text::string_from_range;

verus! {

#[verifier::external_type_specification]
#[verifier::external_body]
pub struct ExMailbox(lettre::message::Mailbox);

#[verifier::external_type_specification]
#[verifier::external_body]
pub struct ExAddressError(lettre::address::AddressError);

#[verifier::external_type_specification]
#[verifier::external_body]
pub struct ExMessageBuilder(lettre::message::MessageBuilder);

#[verifier::external_type_specification]
#[verifier::external_body]
pub struct ExMessage(lettre::Message);

#[verifier::external_type_specification]
#[verifier::external_body]
pub struct ExEmailError(lettre::error::Error);

/// `s` without its trailing slashes (`str::trim_end_matches('/')`).
pub open spec fn trim_end_slashes(s: Seq<char>) -> Seq<char>
    decreases s.len(),
{
    if s.len() > 0 && s.last() == '/' {
        trim_end_slashes(s.drop_last())
    } else {
        s
    }
}

/// The link that confirms the address holding `token`.
pub open spec fn verification_link_text(public_url: Seq<char>, token: Seq<char>) -> Seq<char> {
    trim_end_slashes(public_url) + "/verify?token="@ + token
}

/// The link does not depend on trailing slashes of the configured URL:
/// adding one gives the same link.
pub proof fn lemma_trailing_slash_ignored(public_url: Seq<char>, token: Seq<char>)
    ensures
        verification_link_text(public_url.push('/'), token) == verification_link_text(public_url, token),
{
    assert(public_url.push('/').drop_last() == public_url);
}

/// Dropping trailing slashes keeps a prefix that does not end with a slash,
/// and everything dropped is a slash.
proof fn lemma_trim_end_slashes_shape(s: Seq<char>)
    ensures
        trim_end_slashes(s).len() <= s.len(),
        trim_end_slashes(s) == s.subrange(0, trim_end_slashes(s).len() as int),
        forall|k: int| trim_end_slashes(s).len() <= k < s.len() ==> #[trigger] s[k] == '/',
        trim_end_slashes(s).len() > 0 ==> trim_end_slashes(s).last() != '/',
    decreases s.len(),
{
    if s.len() > 0 && s.last() == '/' {
        let r = s.drop_last();
        lemma_trim_end_slashes_shape(r);
        assert(r.subrange(0, trim_end_slashes(s).len() as int) == s.subrange(
            0,
            trim_end_slashes(s).len() as int,
        ));
        assert forall|k: int| trim_end_slashes(s).len() <= k < s.len() implies #[trigger] s[k] == '/' by {
            if k < s.len() - 1 {
                assert(s[k] == r[k]);
            }
        }
    } else {
        assert(s.subrange(0, s.len() as int) == s);
    }
}

/// The link is the configured URL up to its trailing slashes, then
/// `/verify?token=`, then the whole token: its length is that of the kept URL
/// plus 14 plus that of the token, and it ends with the token.
pub proof fn lemma_link_carries_whole_token(public_url: Seq<char>, token: Seq<char>)
    ensures
        exists|n: int|
            #![trigger public_url.subrange(0, n)]
            {
                &&& 0 <= n <= public_url.len()
                &&& forall|k: int| n <= k < public_url.len() ==> #[trigger] public_url[k] == '/'
                &&& (n > 0 ==> public_url[n - 1] != '/')
                &&& verification_link_text(public_url, token) == public_url.subrange(0, n)
                    + "/verify?token="@ + token
            },
        verification_link_text(public_url, token).len() == trim_end_slashes(public_url).len() + 14
            + token.len(),
        verification_link_text(public_url, token).subrange(
            verification_link_text(public_url, token).len() - token.len(),
            verification_link_text(public_url, token).len() as int,
        ) == token,
{
    reveal_strlit("/verify?token=");
    lemma_trim_end_slashes_shape(public_url);
    let p = trim_end_slashes(public_url);
    let n = p.len() as int;
    if n > 0 {
        assert(public_url[n - 1] == p.last());
    }
    assert(public_url.subrange(0, n) == p);
    let l = verification_link_text(public_url, token);
    assert(l.subrange(l.len() - token.len(), l.len() as int) =~= token);
}

/// `{public_url without trailing slashes}/verify?token={token}`.
pub fn verification_link(public_url: &str, token: &str) -> (link: String)
    ensures
        link@ == verification_link_text(public_url@, token@),
        link@.len() == trim_end_slashes(public_url@).len() + 14 + token@.len(),
        link@.subrange(link@.len() - token@.len(), link@.len() as int) == token@,
{
    proof {
        lemma_link_carries_whole_token(public_url@, token@);
    }
    let v = chars_of(public_url);
    let mut end = v.len();
    assert(v@.subrange(0, end as int) == v@);
    while end > 0 && v[end - 1] == '/'
        invariant
            end <= v@.len(),
            v@ == public_url@,
            trim_end_slashes(public_url@) == trim_end_slashes(v@.subrange(0, end as int)),
        decreases end,
    {
        assert(v@.subrange(0, end as int).drop_last() == v@.subrange(0, end - 1));
        end = end - 1;
    }
    let mut link = string_from_range(&v, 0, end);
    link.append("/verify?token=");
    link.append(token);
    link
}

/// The subject of the verification e-mail.
pub open spec fn verification_subject_text() -> Seq<char> {
    "Confirme ton inscription à l'ATACC"@
}

/// The HTML body of the verification e-mail greeting `first_names` and
/// pointing to `link`.
pub open spec fn verification_html_text(first_names: Seq<char>, link: Seq<char>) -> Seq<char> {
    "<p>Salut "@ + first_names
        + ",</p><p>Merci de ton inscription à l'ATACC ! Pour confirmer ton adresse email, clique sur le lien ci-dessous :</p><p><a href=\""@
        + link
        + "\">Confirmer mon inscription</a></p><br><p>Si tu n'es pas à l'origine de cette inscription, tu peux ignorer ce message.</p><p>À bientôt,<br>L'équipe ATACC</p>"@
}

/// The e-mail greets the person by the first names given and links to the
/// given address: its HTML starts with `<p>Salut {first_names},</p>` and holds
/// `<a href="{link}">Confirmer mon inscription</a>`.
pub proof fn lemma_email_greets_and_links(first_names: Seq<char>, link: Seq<char>)
    ensures
        verification_html_text(first_names, link).subrange(0, 9 + first_names.len() as int + 5)
            == "<p>Salut "@ + first_names + ",</p>"@,
        exists|i: int|
            #![trigger verification_html_text(first_names, link).subrange(i, i + 9 + link.len() + 31)]
            0 <= i && i + 9 + link.len() + 31 <= verification_html_text(first_names, link).len()
                && verification_html_text(first_names, link).subrange(i, i + 9 + link.len() + 31)
                == "<a href=\""@ + link + "\">Confirmer mon inscription</a>"@,
{
    reveal_strlit("<p>Salut ");
    reveal_strlit(",</p>");
    reveal_strlit("<a href=\"");
    reveal_strlit("\">Confirmer mon inscription</a>");
    let a = ",</p><p>Merci de ton inscription à l'ATACC ! Pour confirmer ton adresse email, clique sur le lien ci-dessous :</p><p><a href=\""@;
    let b = "\">Confirmer mon inscription</a></p><br><p>Si tu n'es pas à l'origine de cette inscription, tu peux ignorer ce message.</p><p>À bientôt,<br>L'équipe ATACC</p>"@;
    reveal_strlit(",</p><p>Merci de ton inscription à l'ATACC ! Pour confirmer ton adresse email, clique sur le lien ci-dessous :</p><p><a href=\"");
    reveal_strlit("\">Confirmer mon inscription</a></p><br><p>Si tu n'es pas à l'origine de cette inscription, tu peux ignorer ce message.</p><p>À bientôt,<br>L'équipe ATACC</p>");
    let h = verification_html_text(first_names, link);
    assert(h.subrange(0, 9 + first_names.len() as int + 5) =~= "<p>Salut "@ + first_names + ",</p>"@);
    let i = 9 + first_names.len() + a.len() - 9;
    assert(h.subrange(i, i + 9 + link.len() + 31) =~= "<a href=\""@ + link + "\">Confirmer mon inscription</a>"@);
}

/// The content of a verification e-mail.
pub struct VerificationEmail {
    pub subject: String,
    pub link: String,
    pub html: String,
}

/// The verification e-mail for `first_names`, whose link confirms `token`.
pub fn verification_email(public_url: &str, first_names: &str, token: &str) -> (e: VerificationEmail)
    ensures
        e.subject@ == verification_subject_text(),
        e.link@ == verification_link_text(public_url@, token@),
        e.html@ == verification_html_text(first_names@, e.link@),
{
    let link = verification_link(public_url, token);
    let mut html = String::from_str("<p>Salut ");
    html.append(first_names);
    html.append(
        ",</p><p>Merci de ton inscription à l'ATACC ! Pour confirmer ton adresse email, clique sur le lien ci-dessous :</p><p><a href=\"",
    );
    html.append(link.as_str());
    html.append(
        "\">Confirmer mon inscription</a></p><br><p>Si tu n'es pas à l'origine de cette inscription, tu peux ignorer ce message.</p><p>À bientôt,<br>L'équipe ATACC</p>",
    );
    let subject = String::from_str("Confirme ton inscription à l'ATACC");
    VerificationEmail { subject, link, html }
}

/// Whether lettre reads `s` as a mailbox (`Mailbox::from_str` succeeds).
pub uninterp spec fn mailbox_parses(s: Seq<char>) -> bool;

/// A mailbox read by lettre, with the text it was read from.
pub struct ParsedMailbox {
    mailbox: lettre::message::Mailbox,
    source: Ghost<Seq<char>>,
}

impl ParsedMailbox {
    /// The text this mailbox was read from.
    pub closed spec fn source(&self) -> Seq<char> {
        self.source@
    }
}

/// What has been put into a message so far.
pub struct MessageModel {
    /// The texts the `From` mailboxes were read from, in order.
    pub senders: Seq<Seq<char>>,
    /// The texts the `To` mailboxes were read from, in order.
    pub recipients: Seq<Seq<char>>,
    /// The `Subject` header, once set.
    pub subject: Option<Seq<char>>,
    /// Whether the `Content-Type` header is `text/html; charset=utf-8`.
    pub html_content_type: bool,
    /// The body, once given.
    pub body: Option<Seq<char>>,
}

/// A message being put together (lettre's `MessageBuilder`), with what has
/// been put into it.
pub struct MessageDraft {
    builder: lettre::message::MessageBuilder,
    model: Ghost<MessageModel>,
}

impl View for MessageDraft {
    type V = MessageModel;

    closed spec fn view(&self) -> MessageModel {
        self.model@
    }
}

/// A finished message (lettre's `Message`), with what was put into it.
pub struct VerificationMessage {
    message: lettre::Message,
    model: Ghost<MessageModel>,
}

impl View for VerificationMessage {
    type V = MessageModel;

    closed spec fn view(&self) -> MessageModel {
        self.model@
    }
}

impl VerificationMessage {
    /// The lettre message, ready for a transport.
    pub fn into_message(self) -> lettre::Message {
        self.message
    }
}

/// `Mailbox::from_str` (lettre): succeeds exactly on the texts named by
/// [`mailbox_parses`], a property of the text alone; the mailbox remembers
/// the text it was read from.
#[verifier::external_body]
fn parse_mailbox(s: &str) -> (r: Result<ParsedMailbox, lettre::address::AddressError>)
    ensures
        r is Ok <==> mailbox_parses(s@),
        r matches Ok(m) ==> m.source() == s@,
{
    match s.parse::<lettre::message::Mailbox>() {
        Ok(mailbox) => Ok(ParsedMailbox { mailbox, source: Ghost(s@) }),
        Err(e) => Err(e),
    }
}

/// `Message::builder()` (lettre): a builder with nothing in it.
#[verifier::external_body]
fn message_builder() -> (d: MessageDraft)
    ensures
        d@ == (MessageModel {
            senders: Seq::empty(),
            recipients: Seq::empty(),
            subject: None,
            html_content_type: false,
            body: None,
        }),
{
    MessageDraft { builder: lettre::Message::builder(), model: Ghost(MessageModel {
        senders: Seq::empty(),
        recipients: Seq::empty(),
        subject: None,
        html_content_type: false,
        body: None,
    }) }
}

/// `MessageBuilder::from` (lettre): adds `m` to the `From` mailboxes.
#[verifier::external_body]
fn with_sender(d: MessageDraft, m: ParsedMailbox) -> (r: MessageDraft)
    ensures
        r@ == (MessageModel { senders: d@.senders.push(m.source()), ..d@ }),
{
    MessageDraft {
        builder: d.builder.from(m.mailbox),
        model: Ghost(MessageModel { senders: d@.senders.push(m.source()), ..d@ }),
    }
}

/// `MessageBuilder::to` (lettre): adds `m` to the `To` mailboxes.
#[verifier::external_body]
fn with_recipient(d: MessageDraft, m: ParsedMailbox) -> (r: MessageDraft)
    ensures
        r@ == (MessageModel { recipients: d@.recipients.push(m.source()), ..d@ }),
{
    MessageDraft {
        builder: d.builder.to(m.mailbox),
        model: Ghost(MessageModel { recipients: d@.recipients.push(m.source()), ..d@ }),
    }
}

/// `MessageBuilder::subject` (lettre): sets the `Subject` header to `s`.
#[verifier::external_body]
fn with_subject(d: MessageDraft, s: String) -> (r: MessageDraft)
    ensures
        r@ == (MessageModel { subject: Some(s@), ..d@ }),
{
    let ghost text = s@;
    MessageDraft {
        builder: d.builder.subject(s),
        model: Ghost(MessageModel { subject: Some(text), ..d@ }),
    }
}

/// `MessageBuilder::header` (lettre) with `ContentType::TEXT_HTML`: sets the
/// `Content-Type` header to `text/html; charset=utf-8`.
#[verifier::external_body]
fn with_html_content_type(d: MessageDraft) -> (r: MessageDraft)
    ensures
        r@ == (MessageModel { html_content_type: true, ..d@ }),
{
    MessageDraft {
        builder: d.builder.header(lettre::message::header::ContentType::TEXT_HTML),
        model: Ghost(MessageModel { html_content_type: true, ..d@ }),
    }
}

/// `MessageBuilder::body` (lettre): the finished message carrying `body`, or
/// why it could not be assembled. lettre's `build` only fails without exactly
/// one `From` mailbox or without a recipient, so a draft with one sender and
/// at least one recipient always gives a message. (It also stamps a `Date`
/// header with the current time, which is not modelled.)
#[verifier::external_body]
fn with_body(d: MessageDraft, body: String) -> (r: Result<VerificationMessage, lettre::error::Error>)
    ensures
        d@.senders.len() == 1 && d@.recipients.len() >= 1 ==> r is Ok,
        r matches Ok(m) ==> m@ == (MessageModel { body: Some(body@), ..d@ }),
{
    let ghost text = body@;
    match d.builder.body(body) {
        Ok(message) => Ok(VerificationMessage {
            message,
            model: Ghost(MessageModel { body: Some(text), ..d@ }),
        }),
        Err(e) => Err(e),
    }
}

/// Why the verification message could not be built.
#[derive(Debug)]
pub enum EmailError {
    /// The configured sender address is not a mailbox.
    InvalidSender(lettre::address::AddressError),
    /// The recipient address is not a mailbox.
    InvalidRecipient(lettre::address::AddressError),
    /// lettre refused to assemble the message.
    Composition(lettre::error::Error),
}

/// The verification message from the configured sender to `to_email`, with
/// `email`'s subject as `Subject`, its HTML as body and an HTML content type.
/// The sender is read first, then the recipient; the first that is not a
/// mailbox is the error, and when both are mailboxes the message is built.
pub fn build_verification_message(
    smtp: &SmtpConfig,
    to_email: &str,
    email: VerificationEmail,
) -> (r: Result<VerificationMessage, EmailError>)
    ensures
        (r matches Err(EmailError::InvalidSender(_))) <==> !mailbox_parses(smtp.from_address@),
        (r matches Err(EmailError::InvalidRecipient(_))) <==> mailbox_parses(smtp.from_address@)
            && !mailbox_parses(to_email@),
        r is Ok <==> mailbox_parses(smtp.from_address@) && mailbox_parses(to_email@),
        r matches Ok(m) ==> m@ == (MessageModel {
            senders: seq![smtp.from_address@],
            recipients: seq![to_email@],
            subject: Some(email.subject@),
            html_content_type: true,
            body: Some(email.html@),
        }),
{
    let from = match parse_mailbox(smtp.from_address.as_str()) {
        Ok(m) => m,
        Err(e) => return Err(EmailError::InvalidSender(e)),
    };
    let to = match parse_mailbox(to_email) {
        Ok(m) => m,
        Err(e) => return Err(EmailError::InvalidRecipient(e)),
    };
    let draft = with_html_content_type(
        with_subject(with_recipient(with_sender(message_builder(), from), to), email.subject),
    );
    match with_body(draft, email.html) {
        Ok(m) => Ok(m),
        Err(e) => Err(EmailError::Composition(e)),
    }
}

} // verus!
