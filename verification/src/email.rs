//! The password-reset email: the link the member follows and the message
//! around it. Sending is SMTP work and stays outside; the texts are built and
//! pinned down here.

use vstd::prelude::*;
use vstd::string::StringExecFns;

verus! {

/// An email ready to send: whom to, the subject, and the HTML body.
pub struct EmailRequest {
    pub to: String,
    pub subject: String,
    pub body: String,
}

/// The reset link: the base URL with the token and the address as query
/// parameters.
pub open spec fn spec_reset_url(base_url: Seq<char>, token: Seq<char>, email: Seq<char>) -> Seq<
    char,
> {
    base_url + "?token="@ + token + "&email="@ + email
}

/// Build the reset link for the given token and address.
pub fn build_reset_url(base_url: &str, token: &str, to_email: &str) -> (r: String)
    ensures
        r@ == spec_reset_url(base_url@, token@, to_email@),
{
    let mut s = base_url.to_owned();
    s.append("?token=");
    s.append(token);
    s.append("&email=");
    s.append(to_email);
    s
}

/// The HTML body of the reset email: a greeting by first name around the
/// reset link.
pub open spec fn spec_reset_body(first_name: Seq<char>, reset_url: Seq<char>) -> Seq<char> {
    "\n            <html>\n            <body>\n                <h2>Mot de passe oublié</h2>\n                <br>\n                <p>Bonjour "@
        + first_name
        + ",</p>\n                <br>\n                <p>Pour réinitialiser votre mot de passe, veuillez cliquer sur le lien suivant :</p>\n                <p><a href=\""@
        + reset_url
        + "\">Réinitialisation de mon mot de passe</a></p>\n                <p>Ce lien expirera dans une heure.</p>\n                <br>\n                <p>Sportivement.</p>\n                <p>Beach Garden SXM</p>\n            </body>\n            </html>\n            "@
}

/// Build the password-reset email for the member: subject fixed, body the
/// greeting around the reset link built from the base URL, the token and the
/// member's address.
pub fn password_reset_email(to_email: &str, first_name: &str, token: &str, base_url: &str) -> (r:
    EmailRequest)
    ensures
        r.to@ == to_email@,
        r.subject@ == "Beach Garden SXM - Mot de passe oublié"@,
        r.body@ == spec_reset_body(first_name@, spec_reset_url(base_url@, token@, to_email@)),
{
    let reset_url = build_reset_url(base_url, token, to_email);
    let mut body = String::from_str(
        "\n            <html>\n            <body>\n                <h2>Mot de passe oublié</h2>\n                <br>\n                <p>Bonjour ",
    );
    body.append(first_name);
    body.append(
        ",</p>\n                <br>\n                <p>Pour réinitialiser votre mot de passe, veuillez cliquer sur le lien suivant :</p>\n                <p><a href=\"",
    );
    body.append(reset_url.as_str());
    body.append(
        "\">Réinitialisation de mon mot de passe</a></p>\n                <p>Ce lien expirera dans une heure.</p>\n                <br>\n                <p>Sportivement.</p>\n                <p>Beach Garden SXM</p>\n            </body>\n            </html>\n            ",
    );
    EmailRequest {
        to: to_email.to_owned(),
        subject: String::from_str("Beach Garden SXM - Mot de passe oublié"),
        body,
    }
}

} // verus!
