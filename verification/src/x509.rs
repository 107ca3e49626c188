//! The certificate record: what one certificate file says of itself.

use crate::decoder::issuer_common_name;
use crate::decoder::issuer_common_name_of;
use crate::decoder::not_after_of;
use crate::decoder::not_before_of;
use crate::decoder::subject_common_name;
use crate::decoder::subject_common_name_of;
use crate::decoder::subject_is_issuer;
use crate::decoder::subject_is_issuer_of;
use crate::decoder::validity_not_after;
use crate::decoder::validity_not_before;
use crate::path::path_shown;
use crate::path::path_text;
use crate::path::path_utf8;
use crate::path::shown_text;
use crate::path::text_of;
use crate::text::colored;
use crate::text::labelled;
use crate::text::lines_view;
use crate::text::pair;
use crate::text::Color;
use crate::text::Line;
use crate::text::LineView;
use crate::text::Span;
use crate::timestamp::clock;
use crate::timestamp::Timestamp;
use std::path::PathBuf;
use vstd::prelude::*;
use x509_certificate::X509Certificate;

verus! {

/// One of the two names that every record must carry.
#[derive(Clone, Copy, Debug, PartialEq, Eq, Structural)]
pub enum Identity {
    Subject,
    Issuer,
}

/// Why a decoded certificate gave no record.
#[derive(Clone, Copy, Debug, PartialEq, Eq, Structural)]
pub enum ConstructionError {
    /// The certificate has no readable common name for this identity, or
    /// an empty one.
    MissingIdentity(Identity),
}

impl ConstructionError {
    /// The text of the error.
    pub open spec fn text(self) -> Seq<char> {
        match self {
            ConstructionError::MissingIdentity(Identity::Subject) => {
                "Couldn't parse the X509 subject."@
            },
            ConstructionError::MissingIdentity(Identity::Issuer) => {
                "Couldn't parse the X509 issuer."@
            },
        }
    }

    /// Renders the error as text.
    pub fn message(&self) -> (r: String)
        ensures
            r@ == self.text(),
    {
        match self {
            ConstructionError::MissingIdentity(Identity::Subject) => {
                "Couldn't parse the X509 subject.".to_string()
            },
            ConstructionError::MissingIdentity(Identity::Issuer) => {
                "Couldn't parse the X509 issuer.".to_string()
            },
        }
    }
}

/// A certificate file's descriptive fields, independent of the decoder that
/// read them. The subject and the issuer of a record are never empty.
#[derive(Debug)]
pub struct X509 {
    path: PathBuf,
    subject: String,
    issuer: String,
    self_signed: bool,
    not_before: Timestamp,
    not_after: Timestamp,
}

/// The fields of a record as mathematical values.
pub struct X509View {
    pub path: PathBuf,
    pub subject: Seq<char>,
    pub issuer: Seq<char>,
    pub self_signed: bool,
    pub not_before: Timestamp,
    pub not_after: Timestamp,
}

impl X509View {
    /// The instant `now` lies in the validity window, both ends included.
    pub open spec fn valid_at(self, now: Timestamp) -> bool {
        self.not_before.at_or_before(now) && now.at_or_before(self.not_after)
    }

    /// The line that names the subject.
    pub open spec fn subject_line(self) -> LineView {
        labelled("Subject: "@, self.subject, Color::Reset)
    }

    /// The line that names the issuer.
    pub open spec fn issuer_line(self) -> LineView {
        labelled("Issuer: "@, self.issuer, Color::Reset)
    }

    /// The line that names the file.
    pub open spec fn path_line(self) -> LineView {
        path_line(path_utf8(self.path))
    }

    /// The line that tells whether the certificate is self-signed.
    pub open spec fn self_signed_line(self) -> LineView {
        self_signed_line(self.self_signed)
    }

    /// The lines on the validity at the instant `now`.
    pub open spec fn validity_lines(self, now: Timestamp) -> Seq<LineView> {
        validity_lines(self.valid_at(now), self.not_before.text(), self.not_after.text())
    }

    /// All lines of the record at the instant `now`: subject, issuer, file,
    /// self-signed flag, then the lines on the validity.
    pub open spec fn default_lines(self, now: Timestamp) -> Seq<LineView> {
        seq![self.subject_line(), self.issuer_line(), self.path_line(), self.self_signed_line()]
            + self.validity_lines(now)
    }
}

/// The line that names a file, given the text of its path where it has one.
pub open spec fn path_line(text: Option<Seq<char>>) -> LineView {
    labelled("Path: "@, path_shown(text), Color::Reset)
}

/// The line that tells whether a certificate is self-signed: a warning in
/// red where it is, a reassurance in green where it is not.
pub open spec fn self_signed_line(self_signed: bool) -> LineView {
    if self_signed {
        labelled("Is Self-Signed? "@, "Yes"@, Color::Red)
    } else {
        labelled("Is Self-Signed? "@, "No"@, Color::Green)
    }
}

/// The lines on a certificate's validity: whether it is valid, in green
/// where it is and in red where it is not, and in either case the two ends
/// of its validity window.
pub open spec fn validity_lines(valid: bool, not_before: Seq<char>, not_after: Seq<char>) -> Seq<
    LineView,
> {
    seq![
        if valid {
            labelled("Is Currently Valid? "@, "Yes"@, Color::Green)
        } else {
            labelled("Is Currently Valid? "@, "No"@, Color::Red)
        },
        pair(colored("\t .. valid after "@, Color::White), colored(not_before, Color::White)),
        pair(colored("\t .. up until "@, Color::White), colored(not_after, Color::White)),
    ]
}

/// Makes the line that names a file, from the text of its path where it has
/// one.
pub fn path_line_from(text: Option<String>) -> (r: Line)
    ensures
        r@ == path_line(text_of(text)),
{
    Line::labelled("Path: ", shown_text(text), Color::Reset)
}

/// Makes the lines on a certificate's validity, from the verdict and the
/// text of the two ends of the validity window.
pub fn validity_lines_from(valid: bool, not_before: String, not_after: String) -> (r: Vec<Line>)
    ensures
        lines_view(r@) == validity_lines(valid, not_before@, not_after@),
{
    let verdict = if valid {
        Line::labelled("Is Currently Valid? ", "Yes".to_string(), Color::Green)
    } else {
        Line::labelled("Is Currently Valid? ", "No".to_string(), Color::Red)
    };
    let valid_after = Line::pair(
        Span::colored("\t .. valid after ".to_string(), Color::White),
        Span::colored(not_before, Color::White),
    );
    let up_until = Line::pair(
        Span::colored("\t .. up until ".to_string(), Color::White),
        Span::colored(not_after, Color::White),
    );
    let mut r: Vec<Line> = Vec::new();
    r.push(verdict);
    r.push(valid_after);
    r.push(up_until);
    assert(lines_view(r@) =~= validity_lines(valid, not_before@, not_after@));
    r
}

impl View for X509 {
    type V = X509View;

    closed spec fn view(&self) -> X509View {
        X509View {
            path: self.path,
            subject: self.subject@,
            issuer: self.issuer@,
            self_signed: self.self_signed,
            not_before: self.not_before,
            not_after: self.not_after,
        }
    }
}

/// A common name identifies someone: it is present and not empty.
pub open spec fn names(name: Option<Seq<char>>) -> bool {
    name matches Some(text) && text.len() > 0
}

/// The record that decoded attributes give for the file at `path`: it
/// exists exactly when both common names are present and not empty, and
/// then holds every attribute unchanged. A subject that is missing or empty
/// is reported before an issuer that is.
pub open spec fn construction(
    subject: Option<Seq<char>>,
    issuer: Option<Seq<char>>,
    self_signed: bool,
    not_before: Timestamp,
    not_after: Timestamp,
    path: PathBuf,
) -> Result<X509View, ConstructionError> {
    if !names(subject) {
        Err(ConstructionError::MissingIdentity(Identity::Subject))
    } else if !names(issuer) {
        Err(ConstructionError::MissingIdentity(Identity::Issuer))
    } else {
        Ok(
            X509View {
                path,
                subject: subject->0,
                issuer: issuer->0,
                self_signed,
                not_before,
                not_after,
            },
        )
    }
}

/// The record that a decoded certificate gives for the file at `path`.
pub open spec fn record_of(cert: X509Certificate, path: PathBuf) -> Result<
    X509View,
    ConstructionError,
> {
    construction(
        subject_common_name_of(cert),
        issuer_common_name_of(cert),
        subject_is_issuer_of(cert),
        not_before_of(cert),
        not_after_of(cert),
        path,
    )
}

/// What a list of records holds.
pub open spec fn records_view(records: Seq<X509>) -> Seq<X509View> {
    records.map_values(|record: X509| record@)
}

/// What the outcome of a construction holds.
pub open spec fn outcome_view(r: Result<X509, ConstructionError>) -> Result<
    X509View,
    ConstructionError,
> {
    match r {
        Ok(record) => Ok(record@),
        Err(e) => Err(e),
    }
}

impl X509 {
    /// Builds the record of the file at `path` from a decoded certificate.
    /// There is none for a certificate whose subject or issuer has no
    /// readable common name or an empty one.
    ///
    /// The flag for a self-signed certificate is the decoder's comparison of
    /// the two names, never a comparison of the two common names; the
    /// validity window is taken as it stands, whether or not its start
    /// precedes its end.
    pub fn from(x509_certificate: &X509Certificate, path: PathBuf) -> (r: Result<
        Self,
        ConstructionError,
    >)
        ensures
            outcome_view(r) == record_of(*x509_certificate, path),
            r matches Ok(record) ==> record@.subject.len() > 0 && record@.issuer.len() > 0,
    {
        let subject = subject_common_name(x509_certificate);
        let issuer = issuer_common_name(x509_certificate);
        let self_signed = subject_is_issuer(x509_certificate);
        let not_before = validity_not_before(x509_certificate);
        let not_after = validity_not_after(x509_certificate);
        X509::from_attributes(subject, issuer, self_signed, not_before, not_after, path)
    }

    /// Builds the record of the file at `path` from attributes that a
    /// decoder has read. A common name that is empty counts as missing.
    pub fn from_attributes(
        subject: Option<String>,
        issuer: Option<String>,
        self_signed: bool,
        not_before: Timestamp,
        not_after: Timestamp,
        path: PathBuf,
    ) -> (r: Result<Self, ConstructionError>)
        ensures
            outcome_view(r) == construction(
                text_of(subject),
                text_of(issuer),
                self_signed,
                not_before,
                not_after,
                path,
            ),
            r matches Ok(record) ==> record@.subject.len() > 0 && record@.issuer.len() > 0,
    {
        let subject = match subject {
            Some(subject) => subject,
            None => {
                return Err(ConstructionError::MissingIdentity(Identity::Subject));
            },
        };
        if subject.as_str().is_empty() {
            return Err(ConstructionError::MissingIdentity(Identity::Subject));
        }
        let issuer = match issuer {
            Some(issuer) => issuer,
            None => {
                return Err(ConstructionError::MissingIdentity(Identity::Issuer));
            },
        };
        if issuer.as_str().is_empty() {
            return Err(ConstructionError::MissingIdentity(Identity::Issuer));
        }
        Ok(X509 { path, subject, issuer, self_signed, not_before, not_after })
    }

    /// Neither name of a record is empty, in every record there is.
    #[verifier::type_invariant]
    pub closed spec fn is_named(self) -> bool {
        self.subject@.len() > 0 && self.issuer@.len() > 0
    }

    /// What the invariant of a record says of its view.
    pub proof fn lemma_is_named(self)
        requires
            self.is_named(),
        ensures
            self@.subject.len() > 0,
            self@.issuer.len() > 0,
    {
    }

    /// The common name of the subject, which is not empty.
    pub fn get_subject(&self) -> (r: &String)
        ensures
            r@ == self@.subject,
            r@.len() > 0,
    {
        proof {
            use_type_invariant(self);
        }
        &self.subject
    }

    /// The common name of the issuer, which is not empty.
    pub fn get_issuer(&self) -> (r: &String)
        ensures
            r@ == self@.issuer,
            r@.len() > 0,
    {
        proof {
            use_type_invariant(self);
        }
        &self.issuer
    }

    /// The file that holds the certificate.
    pub fn get_path(&self) -> (r: &PathBuf)
        ensures
            *r == self@.path,
    {
        &self.path
    }

    /// Whether the certificate names its subject as its own issuer.
    pub fn is_self_signed(&self) -> (r: &bool)
        ensures
            *r == self@.self_signed,
    {
        &self.self_signed
    }

    /// The instant at which the validity begins.
    pub fn get_not_before(&self) -> (r: &Timestamp)
        ensures
            *r == self@.not_before,
    {
        &self.not_before
    }

    /// The instant at which the validity ends.
    pub fn get_not_after(&self) -> (r: &Timestamp)
        ensures
            *r == self@.not_after,
    {
        &self.not_after
    }

    /// Tells whether `now` lies in the validity window, both ends included.
    pub fn is_valid_at(&self, now: &Timestamp) -> (r: bool)
        ensures
            r == self@.valid_at(*now),
    {
        self.not_before.is_at_or_before(now) && now.is_at_or_before(&self.not_after)
    }

    /// Makes the line that names the subject.
    pub fn parse_subject(&self) -> (r: Line)
        ensures
            r@ == self@.subject_line(),
    {
        Line::labelled("Subject: ", self.subject.clone(), Color::Reset)
    }

    /// Makes the line that names the issuer.
    pub fn parse_issuer(&self) -> (r: Line)
        ensures
            r@ == self@.issuer_line(),
    {
        Line::labelled("Issuer: ", self.issuer.clone(), Color::Reset)
    }

    /// Makes the line that names the file. A path that is not valid Unicode
    /// is named by `UNPRINTABLE_PATH`.
    pub fn parse_path(&self) -> (r: Line)
        ensures
            r@ == self@.path_line(),
    {
        path_line_from(path_text(&self.path))
    }

    /// Makes the line that tells whether the certificate is self-signed.
    pub fn parse_self_signed(&self) -> (r: Line)
        ensures
            r@ == self@.self_signed_line(),
    {
        if self.self_signed {
            Line::labelled("Is Self-Signed? ", "Yes".to_string(), Color::Red)
        } else {
            Line::labelled("Is Self-Signed? ", "No".to_string(), Color::Green)
        }
    }

    /// Makes the lines on the validity at the instant `now`.
    pub fn parse_is_valid_at(&self, now: &Timestamp) -> (r: Vec<Line>)
        ensures
            lines_view(r@) == self@.validity_lines(*now),
    {
        validity_lines_from(
            self.is_valid_at(now),
            self.not_before.to_text(),
            self.not_after.to_text(),
        )
    }

    /// Makes the lines on the validity at the clock's present reading.
    /// Whatever the reading, they are the lines for some instant: only the
    /// verdict depends on it, never the window shown.
    pub fn parse_is_currently_valid(&self) -> (r: Vec<Line>)
        ensures
            exists|now: Timestamp| lines_view(r@) == #[trigger] self@.validity_lines(now),
    {
        let now = clock();
        self.parse_is_valid_at(&now)
    }

    /// Makes all lines of the record at the instant `now`.
    pub fn get_lines_at(&self, now: &Timestamp) -> (r: Vec<Line>)
        ensures
            lines_view(r@) == self@.default_lines(*now),
    {
        let mut r: Vec<Line> = Vec::new();
        r.push(self.parse_subject());
        r.push(self.parse_issuer());
        r.push(self.parse_path());
        r.push(self.parse_self_signed());
        let mut validity = self.parse_is_valid_at(now);
        let ghost head = lines_view(r@);
        let ghost tail = lines_view(validity@);
        r.append(&mut validity);
        assert(lines_view(r@) =~= head + tail);
        assert(head =~= seq![
            self@.subject_line(),
            self@.issuer_line(),
            self@.path_line(),
            self@.self_signed_line(),
        ]);
        r
    }

    /// Makes all lines of the record at the clock's present reading.
    /// Whatever the reading, they are the lines for some instant.
    pub fn get_default_lines(&self) -> (r: Vec<Line>)
        ensures
            exists|now: Timestamp| lines_view(r@) == #[trigger] self@.default_lines(now),
    {
        let now = clock();
        self.get_lines_at(&now)
    }

    /// Tells whether the clock's present reading lies in the validity
    /// window. The clock is read at every call, so the answer may change
    /// while a record is held; whatever the reading, a window that ends
    /// before it begins is never valid.
    pub fn get_is_currently_valid(&self) -> (r: bool)
        ensures
            exists|now: Timestamp| r == #[trigger] self@.valid_at(now),
            r ==> self@.not_before.at_or_before(self@.not_after),
    {
        let now = clock();
        self.is_valid_at(&now)
    }
}

/// A record is valid exactly within its window: at both ends of it, where
/// the window is in order, and at no instant before its start or after its
/// end.
pub proof fn lemma_valid_within_the_window(record: X509View, now: Timestamp)
    ensures
        record.valid_at(now) <==> record.not_before.at_or_before(now) && now.at_or_before(
            record.not_after,
        ),
        record.not_before.at_or_before(record.not_after) ==> record.valid_at(record.not_before)
            && record.valid_at(record.not_after),
        !record.not_before.at_or_before(now) ==> !record.valid_at(now),
        !now.at_or_before(record.not_after) ==> !record.valid_at(now),
{
}

/// A window that ends before it begins is kept as it is, and a record with
/// such a window is valid at no instant.
pub proof fn lemma_inverted_window_is_never_valid(record: X509View, now: Timestamp)
    requires
        !record.not_before.at_or_before(record.not_after),
    ensures
        !record.valid_at(now),
{
}

/// There is a record exactly when both common names are present and not
/// empty, so no record has an empty subject or an empty issuer. Where a
/// name is missing or empty, the error names the subject first.
pub proof fn lemma_construction_wants_both_names(
    subject: Option<Seq<char>>,
    issuer: Option<Seq<char>>,
    self_signed: bool,
    not_before: Timestamp,
    not_after: Timestamp,
    path: PathBuf,
)
    ensures
        construction(subject, issuer, self_signed, not_before, not_after, path) is Ok <==> names(
            subject,
        ) && names(issuer),
        construction(subject, issuer, self_signed, not_before, not_after, path) matches Ok(
            record,
        ) ==> record.subject.len() > 0 && record.issuer.len() > 0,
        !names(subject) ==> construction(
            subject,
            issuer,
            self_signed,
            not_before,
            not_after,
            path,
        ) == Err::<X509View, ConstructionError>(
            ConstructionError::MissingIdentity(Identity::Subject),
        ),
        names(subject) && !names(issuer) ==> construction(
            subject,
            issuer,
            self_signed,
            not_before,
            not_after,
            path,
        ) == Err::<X509View, ConstructionError>(
            ConstructionError::MissingIdentity(Identity::Issuer),
        ),
{
}

/// A record says of itself what the decoder said of the certificate: the
/// flag for a self-signed certificate and the validity window are those
/// given, whatever the two common names read, alike or not.
pub proof fn lemma_record_keeps_the_decoders_word(
    subject: Seq<char>,
    issuer: Seq<char>,
    self_signed: bool,
    not_before: Timestamp,
    not_after: Timestamp,
    path: PathBuf,
)
    ensures
        construction(Some(subject), Some(issuer), self_signed, not_before, not_after, path)
            matches Ok(record) ==> record.self_signed == self_signed && record.subject == subject
            && record.issuer == issuer && record.not_before == not_before && record.not_after
            == not_after && record.path == path,
{
}

} // verus!
