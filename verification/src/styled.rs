//! The `colorful`-styled presentation of a message: a summary, reasons
//! shown most specific first, and muted subtleties shown last.

use vstd::prelude::*;
use vstd::string::StringExecFns;

use crate::helper::spec_default_summary;
use crate::helper::FALLBACK_APP_NAME;
use crate::style;
use crate::style::RED_BOLD;
use crate::style::STYLE_RESET;
use crate::style::WHITE_DIM;
use crate::style::WHITE_ON_RED_BOLD;
use crate::style::YELLOW;
use crate::texts;

verus! {

/// Ghost model of a styled message: the summary characters, the reason
/// texts in display order, and the subtlety texts, with absent lists as
/// `None`.
#[verifier::ext_equal]
pub struct ReportModel {
    pub summary: Seq<char>,
    pub reasons: Option<Seq<Seq<char>>>,
    pub subtleties: Option<Seq<Seq<char>>>,
}

/// The headline, supporting reasons, and optional subtleties of one
/// user-facing error message, styled through the `colorful` crate.
pub struct UserError {
    summary: String,
    reasons: Option<Vec<String>>,
    subtleties: Option<Vec<String>>,
}

impl View for UserError {
    type V = ReportModel;

    closed spec fn view(&self) -> ReportModel {
        ReportModel {
            summary: self.summary@,
            reasons: match self.reasons {
                Some(rs) => Some(texts(rs@)),
                None => None,
            },
            subtleties: match self.subtleties {
                Some(ss) => Some(texts(ss@)),
                None => None,
            },
        }
    }
}

/// The texts of a list of string slices, in order.
pub open spec fn str_texts<'a>(v: Seq<&'a str>) -> Seq<Seq<char>> {
    v.map_values(|s: &'a str| s@)
}

/// The styled summary line: a white-on-red bold `Error:` label, a space,
/// then the summary text in bold red.
pub open spec fn spec_styled_summary(s: Seq<char>) -> Seq<char> {
    WHITE_ON_RED_BOLD@ + "Error:"@ + STYLE_RESET@ + " "@ + RED_BOLD@ + s + STYLE_RESET@
}

/// One styled reason line: a yellow `-` bullet, a space, then the text.
pub open spec fn spec_styled_bullet(s: Seq<char>) -> Seq<char> {
    YELLOW@ + "-"@ + STYLE_RESET@ + " "@ + s
}

/// The styled reason lines joined by newlines.
pub open spec fn spec_styled_reasons(rs: Seq<Seq<char>>) -> Seq<char>
    decreases rs.len(),
{
    if rs.len() == 0 {
        Seq::empty()
    } else if rs.len() == 1 {
        spec_styled_bullet(rs[0])
    } else {
        spec_styled_reasons(rs.drop_last()) + "\n"@ + spec_styled_bullet(rs.last())
    }
}

/// One styled subtlety line: the text in dim white.
pub open spec fn spec_styled_subtlety(s: Seq<char>) -> Seq<char> {
    WHITE_DIM@ + s + STYLE_RESET@
}

/// The styled subtlety lines joined by newlines.
pub open spec fn spec_styled_subtleties(ss: Seq<Seq<char>>) -> Seq<char>
    decreases ss.len(),
{
    if ss.len() == 0 {
        Seq::empty()
    } else if ss.len() == 1 {
        spec_styled_subtlety(ss[0])
    } else {
        spec_styled_subtleties(ss.drop_last()) + "\n"@ + spec_styled_subtlety(ss.last())
    }
}

/// The reasons block of a styled message; empty when the list is absent.
pub open spec fn spec_reasons_text(m: ReportModel) -> Seq<char> {
    match m.reasons {
        Some(rs) => spec_styled_reasons(rs),
        None => Seq::empty(),
    }
}

/// The subtleties block of a styled message; empty when the list is absent.
pub open spec fn spec_subtleties_text(m: ReportModel) -> Seq<char> {
    match m.subtleties {
        Some(ss) => spec_styled_subtleties(ss),
        None => Seq::empty(),
    }
}

/// The full styled render: the summary line; then, if either further block
/// is non-empty, a newline and the reasons block; then, if both blocks are
/// non-empty, a newline between them; then the subtleties block.  No
/// artifact is printed for an absent or empty block, and there is no
/// trailing newline.
pub open spec fn spec_styled_rendered(m: ReportModel) -> Seq<char> {
    let rstr = spec_reasons_text(m);
    let sstr = spec_subtleties_text(m);
    let head = if rstr.len() > 0 || sstr.len() > 0 {
        spec_styled_summary(m.summary) + "\n"@
    } else {
        spec_styled_summary(m.summary)
    };
    let mid = if rstr.len() > 0 && sstr.len() > 0 {
        rstr + "\n"@
    } else {
        rstr
    };
    head + mid + sstr
}

impl UserError {
    /// Builds a message from owned parts.  An empty summary is replaced by
    /// the generated placeholder; the reason and subtlety lists are kept,
    /// even when empty.
    pub fn new(summary: String, reasons: Vec<String>, subtleties: Vec<String>) -> (r: UserError)
        ensures
            r@.summary == if summary@.len() == 0 {
                spec_default_summary(FALLBACK_APP_NAME@)
            } else {
                summary@
            },
            r@.reasons == Some(texts(reasons@)),
            r@.subtleties == Some(texts(subtleties@)),
    {
        let summary = if summary.as_str().is_empty() {
            crate::helper::default_summary(FALLBACK_APP_NAME)
        } else {
            summary
        };
        UserError { summary, reasons: Some(reasons), subtleties: Some(subtleties) }
    }

    /// The summary a message stores for the input `summary`: the text as
    /// given, or the generated placeholder when it is empty.
    fn summary_or_placeholder(summary: &str) -> (r: String)
        ensures
            r@ == if summary@.len() == 0 {
                spec_default_summary(FALLBACK_APP_NAME@)
            } else {
                summary@
            },
    {
        if summary.is_empty() {
            crate::helper::default_summary(FALLBACK_APP_NAME)
        } else {
            summary.to_owned()
        }
    }

    /// Builds a message from string literals.  An empty summary is replaced
    /// by the generated placeholder; the reason and subtlety lists are
    /// kept, even when empty.
    pub fn hardcoded(summary: &str, reasons: &[&str], subtleties: &[&str]) -> (r: UserError)
        ensures
            r@.summary == if summary@.len() == 0 {
                spec_default_summary(FALLBACK_APP_NAME@)
            } else {
                summary@
            },
            r@.reasons == Some(str_texts(reasons@)),
            r@.subtleties == Some(str_texts(subtleties@)),
    {
        UserError {
            summary: Self::summary_or_placeholder(summary),
            reasons: Some(owned_strings(reasons)),
            subtleties: Some(owned_strings(subtleties)),
        }
    }

    /// Builds a message with only a summary, or the generated placeholder
    /// when `summary` is empty: no reasons, no subtleties.
    pub fn simple(summary: &str) -> (r: UserError)
        ensures
            r@.summary == if summary@.len() == 0 {
                spec_default_summary(FALLBACK_APP_NAME@)
            } else {
                summary@
            },
            r@.reasons is None,
            r@.subtleties is None,
    {
        UserError { summary: Self::summary_or_placeholder(summary), reasons: None, subtleties: None }
    }

    /// Builds a message from already-shaped parts.
    pub(crate) fn assemble(
        summary: String,
        reasons: Option<Vec<String>>,
        subtleties: Option<Vec<String>>,
    ) -> (r: UserError)
        ensures
            r@.summary == summary@,
            r@.reasons == match reasons {
                Some(rs) => Some(texts(rs@)),
                None => None,
            },
            r@.subtleties == match subtleties {
                Some(ss) => Some(texts(ss@)),
                None => None,
            },
    {
        UserError { summary, reasons, subtleties }
    }

    /// Replaces the summary; reasons and subtleties are untouched.
    pub fn update_summary(&mut self, s: &str)
        ensures
            final(self)@.summary == s@,
            final(self)@.reasons == old(self)@.reasons,
            final(self)@.subtleties == old(self)@.subtleties,
    {
        self.summary = s.to_owned();
    }

    /// Replaces the summary and records the old summary as the new leading
    /// reason.
    pub fn update_and_push_summary(&mut self, s: &str)
        ensures
            final(self)@.summary == s@,
            final(self)@.reasons == Some(
                seq![old(self)@.summary] + match old(self)@.reasons {
                    Some(rs) => rs,
                    None => Seq::empty(),
                },
            ),
            final(self)@.subtleties == old(self)@.subtleties,
    {
        let old_summary = self.summary.clone();
        self.add_reason(old_summary.as_str());
        self.summary = s.to_owned();
    }

    /// Records `reason` as the new leading reason, so that later callers
    /// annotate with increasing specificity; the list is created when
    /// absent.
    pub fn add_reason(&mut self, reason: &str)
        ensures
            final(self)@.summary == old(self)@.summary,
            final(self)@.reasons == Some(
                seq![reason@] + match old(self)@.reasons {
                    Some(rs) => rs,
                    None => Seq::empty(),
                },
            ),
            final(self)@.subtleties == old(self)@.subtleties,
    {
        let reason = reason.to_owned();
        match &mut self.reasons {
            Some(rs) => {
                rs.insert(0, reason);
            },
            None => {
                self.reasons = Some(vec![reason]);
            },
        }
        proof {
            assert(self@.reasons->Some_0 =~= seq![self@.reasons->Some_0[0]] + (match old(
                self,
            )@.reasons {
                Some(rs) => rs,
                None => Seq::<Seq<char>>::empty(),
            }));
        }
    }

    /// Removes every reason: the message is back to having none.
    pub fn clear_reasons(&mut self)
        ensures
            final(self)@.summary == old(self)@.summary,
            final(self)@.reasons is None,
            final(self)@.subtleties == old(self)@.subtleties,
    {
        self.reasons = None;
    }

    /// Appends `subtly` to the subtleties, creating the list if it was
    /// absent.
    pub fn add_subtly(&mut self, subtly: &str)
        ensures
            final(self)@.summary == old(self)@.summary,
            final(self)@.reasons == old(self)@.reasons,
            final(self)@.subtleties == Some(
                (match old(self)@.subtleties {
                    Some(ss) => ss,
                    None => Seq::empty(),
                }) + seq![subtly@],
            ),
    {
        let subtly = subtly.to_owned();
        match &mut self.subtleties {
            Some(ss) => {
                ss.push(subtly);
            },
            None => {
                self.subtleties = Some(vec![subtly]);
            },
        }
        proof {
            assert(self@.subtleties->Some_0 =~= (match old(self)@.subtleties {
                Some(ss) => ss,
                None => Seq::<Seq<char>>::empty(),
            }) + seq![self@.subtleties->Some_0.last()]);
        }
    }

    /// Removes every subtlety: the message is back to having none.
    pub fn clear_subtleties(&mut self)
        ensures
            final(self)@.summary == old(self)@.summary,
            final(self)@.reasons == old(self)@.reasons,
            final(self)@.subtleties is None,
    {
        self.subtleties = None;
    }

    /// The styled summary line, prefixed by the `Error:` label.
    pub fn summary(&self) -> (r: String)
        ensures
            r@ == spec_styled_summary(self@.summary),
    {
        let mut out = style::white_on_red_bold("Error:");
        out.append(" ");
        let tail = style::red_bold(self.summary.as_str());
        out.append(tail.as_str());
        proof {
            assert(out@ =~= spec_styled_summary(self@.summary));
        }
        out
    }

    /// The styled reasons block: one bulleted line per reason, joined by
    /// newlines; empty when there are no reasons.
    pub fn reasons(&self) -> (r: String)
        ensures
            r@ == spec_reasons_text(self@),
    {
        match &self.reasons {
            Some(rs) => styled_reasons_block(rs),
            None => String::new(),
        }
    }

    /// The styled subtleties block: one dim line per subtlety, joined by
    /// newlines; empty when there are no subtleties.
    pub fn subtleties(&self) -> (r: String)
        ensures
            r@ == spec_subtleties_text(self@),
    {
        match &self.subtleties {
            Some(ss) => styled_subtleties_block(ss),
            None => String::new(),
        }
    }

    /// Renders the message: the styled summary line, the reasons block and
    /// the subtleties block, with a newline before each non-empty block
    /// that follows another and nothing printed for an empty one.
    pub fn to_string(&self) -> (r: String)
        ensures
            r@ == spec_styled_rendered(self@),
    {
        let mut out = self.summary();
        let rstr = self.reasons();
        let sstr = self.subtleties();
        let has_reasons = !rstr.as_str().is_empty();
        let has_subtleties = !sstr.as_str().is_empty();
        if has_reasons || has_subtleties {
            out.append("\n");
        }
        out.append(rstr.as_str());
        if has_reasons && has_subtleties {
            out.append("\n");
        }
        out.append(sstr.as_str());
        proof {
            assert(out@ =~= spec_styled_rendered(self@));
        }
        out
    }
}

impl From<String> for UserError {
    /// Converts a plain error string: it becomes the whole summary, or the
    /// generated placeholder when it is empty; no reasons, no subtleties.
    fn from(error: String) -> (r: UserError)
        ensures
            r@.summary == if error@.len() == 0 {
                spec_default_summary(FALLBACK_APP_NAME@)
            } else {
                error@
            },
            r@.reasons is None,
            r@.subtleties is None,
    {
        UserError {
            summary: Self::summary_or_placeholder(error.as_str()),
            reasons: None,
            subtleties: None,
        }
    }
}

impl vstd::std_specs::convert::FromSpecImpl<String> for UserError {
    open spec fn obeys_from_spec() -> bool {
        false
    }

    closed spec fn from_spec(error: String) -> UserError {
        arbitrary()
    }
}

impl From<&str> for UserError {
    /// Converts a plain error string: it becomes the whole summary, or the
    /// generated placeholder when it is empty; no reasons, no subtleties.
    fn from(error: &str) -> (r: UserError)
        ensures
            r@.summary == if error@.len() == 0 {
                spec_default_summary(FALLBACK_APP_NAME@)
            } else {
                error@
            },
            r@.reasons is None,
            r@.subtleties is None,
    {
        UserError {
            summary: Self::summary_or_placeholder(error),
            reasons: None,
            subtleties: None,
        }
    }
}

impl vstd::std_specs::convert::FromSpecImpl<&str> for UserError {
    open spec fn obeys_from_spec() -> bool {
        false
    }

    closed spec fn from_spec(error: &str) -> UserError {
        arbitrary()
    }
}

impl Default for UserError {
    /// The message nothing more is known about: the generated placeholder
    /// summary, no reasons, no subtleties.
    fn default() -> (r: UserError)
        ensures
            r@.summary == spec_default_summary(FALLBACK_APP_NAME@),
            r@.reasons is None,
            r@.subtleties is None,
    {
        UserError {
            summary: crate::helper::default_summary(FALLBACK_APP_NAME),
            reasons: None,
            subtleties: None,
        }
    }
}

/// One owned string per slice entry, texts unchanged.
fn owned_strings(v: &[&str]) -> (r: Vec<String>)
    ensures
        texts(r@) == str_texts(v@),
{
    let mut r: Vec<String> = Vec::new();
    let mut i: usize = 0;
    while i < v.len()
        invariant
            i <= v@.len(),
            r@.len() == i,
            forall|j: int| 0 <= j < i ==> r@[j]@ == v@[j]@,
        decreases v@.len() - i,
    {
        r.push(v[i].to_owned());
        i += 1;
    }
    proof {
        assert(texts(r@) =~= str_texts(v@));
    }
    r
}

/// The styled reasons block for the reasons `rs`.
fn styled_reasons_block(rs: &Vec<String>) -> (r: String)
    ensures
        r@ == spec_styled_reasons(texts(rs@)),
{
    let mut out = String::new();
    let mut i: usize = 0;
    while i < rs.len()
        invariant
            i <= rs.len(),
            out@ == spec_styled_reasons(texts(rs@.take(i as int))),
        decreases rs.len() - i,
    {
        if i > 0 {
            out.append("\n");
        }
        let bullet = style::yellow("-");
        out.append(bullet.as_str());
        out.append(" ");
        out.append(rs[i].as_str());
        proof {
            let prev = texts(rs@.take(i as int));
            let cur = texts(rs@.take((i + 1) as int));
            assert(cur.drop_last() =~= prev);
            assert(cur.last() == rs@[i as int]@);
            assert(out@ =~= spec_styled_reasons(cur));
        }
        i += 1;
    }
    proof {
        assert(texts(rs@.take(rs@.len() as int)) =~= texts(rs@));
    }
    out
}

/// The styled subtleties block for the subtleties `ss`.
fn styled_subtleties_block(ss: &Vec<String>) -> (r: String)
    ensures
        r@ == spec_styled_subtleties(texts(ss@)),
{
    let mut out = String::new();
    let mut i: usize = 0;
    while i < ss.len()
        invariant
            i <= ss.len(),
            out@ == spec_styled_subtleties(texts(ss@.take(i as int))),
        decreases ss.len() - i,
    {
        if i > 0 {
            out.append("\n");
        }
        let line = style::white_dim(ss[i].as_str());
        out.append(line.as_str());
        proof {
            let prev = texts(ss@.take(i as int));
            let cur = texts(ss@.take((i + 1) as int));
            assert(cur.drop_last() =~= prev);
            assert(cur.last() == ss@[i as int]@);
            assert(out@ =~= spec_styled_subtleties(cur));
        }
        i += 1;
    }
    proof {
        assert(texts(ss@.take(ss@.len() as int)) =~= texts(ss@));
    }
    out
}

/// Law: the styled reasons block is the newline-join of exactly one
/// bulleted line per recorded reason, line `i` being the bullet followed by
/// reason `i`'s text; so a message carries as many bulleted lines as
/// reasons, in display order.
pub proof fn lemma_styled_reasons_are_joined_lines(rs: Seq<Seq<char>>)
    ensures
        spec_styled_reasons(rs) == crate::spec_joined(
            rs.map_values(|r: Seq<char>| spec_styled_bullet(r)),
        ),
        rs.map_values(|r: Seq<char>| spec_styled_bullet(r)).len() == rs.len(),
        forall|i: int|
            0 <= i < rs.len() ==> rs.map_values(|r: Seq<char>| spec_styled_bullet(r))[i]
                == spec_styled_bullet(rs[i]),
    decreases rs.len(),
{
    let lines = rs.map_values(|r: Seq<char>| spec_styled_bullet(r));
    if rs.len() == 0 {
    } else if rs.len() == 1 {
        assert(crate::spec_joined(lines) == lines[0]);
    } else {
        lemma_styled_reasons_are_joined_lines(rs.drop_last());
        assert(rs.drop_last().map_values(|r: Seq<char>| spec_styled_bullet(r))
            =~= lines.drop_last());
    }
}

/// Law: with no reasons present, the styled render has no reasons block and
/// no stray line for one: it is the summary line, then, only if subtleties
/// are present and non-empty, a newline and the subtleties block.
pub proof fn lemma_styled_cleared_reasons_render(m: ReportModel)
    requires
        m.reasons is None,
    ensures
        spec_styled_rendered(m) == if spec_subtleties_text(m).len() > 0 {
            spec_styled_summary(m.summary) + "\n"@ + spec_subtleties_text(m)
        } else {
            spec_styled_summary(m.summary)
        },
{
    if spec_subtleties_text(m).len() > 0 {
        assert(spec_styled_rendered(m) =~= spec_styled_summary(m.summary) + "\n"@
            + spec_subtleties_text(m));
    } else {
        assert(spec_styled_rendered(m) =~= spec_styled_summary(m.summary));
    }
}

/// Law: a message created with an empty summary renders with the generated
/// placeholder as its summary, not an empty label.
pub proof fn lemma_empty_summary_renders_placeholder(m: ReportModel)
    requires
        m.summary == spec_default_summary(FALLBACK_APP_NAME@),
        m.reasons == Some(Seq::<Seq<char>>::empty()),
        m.subtleties == Some(Seq::<Seq<char>>::empty()),
    ensures
        spec_styled_rendered(m) == spec_styled_summary(spec_default_summary(FALLBACK_APP_NAME@)),
{
    assert(spec_styled_rendered(m) =~= spec_styled_summary(m.summary));
}

} // verus!
