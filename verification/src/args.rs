//! Telling a section followed by page names from a plain list of page names.
//!
//! With two or more arguments the first one may be a section that the
//! others share. Whether it is one is decided outside this library, by a
//! probe that looks for pages under that section: a single page found there
//! is enough to take the first argument as a section.

use crate::text::texts;
use vstd::prelude::*;

verus! {

/// How a list of arguments is read.
#[derive(Debug, Clone, PartialEq, Eq)]
pub enum ArgsInterpretation {
    SectionAndPages { section: String, pages: Vec<String> },
    Pages(Vec<String>),
}

/// Why the probe could not answer.
#[derive(Debug, Clone, PartialEq, Eq)]
pub enum ValidationError {
    Io(String),
}

/// An `ArgsInterpretation` with its texts as character sequences.
pub enum Reading {
    SectionAndPages { section: Seq<char>, pages: Seq<Seq<char>> },
    Pages(Seq<Seq<char>>),
}

/// A `ValidationError` with its text as a character sequence.
pub enum ValidationFault {
    Io(Seq<char>),
}

impl View for ArgsInterpretation {
    type V = Reading;

    open spec fn view(&self) -> Reading {
        match self {
            ArgsInterpretation::SectionAndPages { section, pages } => Reading::SectionAndPages {
                section: section@,
                pages: texts(pages@),
            },
            ArgsInterpretation::Pages(pages) => Reading::Pages(texts(pages@)),
        }
    }
}

impl View for ValidationError {
    type V = ValidationFault;

    open spec fn view(&self) -> ValidationFault {
        match self {
            ValidationError::Io(text) => ValidationFault::Io(text@),
        }
    }
}

impl ValidationFault {
    /// The text shown for this fault.
    pub open spec fn message(self) -> Seq<char> {
        match self {
            ValidationFault::Io(text) => "io error: "@ + text,
        }
    }
}

impl ValidationError {
    /// The text shown for this error.
    pub fn message(&self) -> (text: String)
        ensures
            text@ == self@.message(),
    {
        match self {
            ValidationError::Io(detail) => "io error: ".to_owned().concat(detail.as_str()),
        }
    }
}

/// What a probe answers: whether any page exists under the section, or a
/// fault.
pub type ProbeReply = Result<bool, ValidationFault>;

/// The answer of a probe with its text as a character sequence.
pub open spec fn probe_reply_of(answer: Result<bool, ValidationError>) -> ProbeReply {
    match answer {
        Ok(found) => Ok(found),
        Err(error) => Err(error@),
    }
}

/// The outcome of a classification with its texts as character sequences.
pub open spec fn reading_of(outcome: Result<ArgsInterpretation, ValidationError>) -> Result<
    Reading,
    ValidationFault,
> {
    match outcome {
        Ok(reading) => Ok(reading@),
        Err(error) => Err(error@),
    }
}

/// A probe has to be asked before `args` can be read.
pub open spec fn needs_probe(args: Seq<Seq<char>>) -> bool {
    args.len() >= 2
}

/// How `args` is read, `reply` being what the probe answered when asked
/// for pages `args[1..]` under section `args[0]`. Fewer than two arguments
/// are page names whatever the reply.
pub open spec fn classified(args: Seq<Seq<char>>, reply: ProbeReply) -> Result<
    Reading,
    ValidationFault,
> {
    if !needs_probe(args) {
        Ok(Reading::Pages(args))
    } else {
        match reply {
            Ok(found) => if found {
                Ok(Reading::SectionAndPages { section: args[0], pages: args.skip(1) })
            } else {
                Ok(Reading::Pages(args))
            },
            Err(fault) => Err(fault),
        }
    }
}

/// Looks for pages under a section.
///
/// `section_has_any_pages` tells whether at least one of `pages` exists
/// under `section`. The library asks with at least one page. It makes no
/// assumption about what an implementation returns: `found` says which
/// replies a probe may give, and unless an implementation narrows it, every
/// reply is one.
pub trait SectionProbe {
    /// `reply` is an answer that this probe may give when it is asked for
    /// `pages` under `section`.
    open spec fn found(&self, section: Seq<char>, pages: Seq<Seq<char>>, reply: ProbeReply) -> bool {
        true
    }

    fn section_has_any_pages(&self, section: &str, pages: &[String]) -> (answer: Result<
        bool,
        ValidationError,
    >)
        requires
            pages@.len() >= 1,
        ensures
            self.found(section@, texts(pages@), probe_reply_of(answer)),
    ;
}

/// A probe that knows no sections: whatever it is asked, it answers that
/// no page was found, so that every argument is read as a page.
#[derive(Debug, Clone, Copy)]
pub struct PagesOnly;

impl SectionProbe for PagesOnly {
    open spec fn found(&self, section: Seq<char>, pages: Seq<Seq<char>>, reply: ProbeReply) -> bool {
        reply == Ok::<bool, ValidationFault>(false)
    }

    fn section_has_any_pages(&self, section: &str, pages: &[String]) -> (answer: Result<
        bool,
        ValidationError,
    >) {
        Ok(false)
    }
}

/// `reply` is an answer of `probe` to what reading `args` asks it: whether
/// any of `args[1..]` is a page of section `args[0]`. With fewer than two
/// arguments nothing is asked, and any reply will do.
pub open spec fn probe_heard<P: SectionProbe + ?Sized>(
    probe: &P,
    args: Seq<Seq<char>>,
    reply: ProbeReply,
) -> bool {
    needs_probe(args) ==> probe.found(args[0], args.skip(1), reply)
}

/// Reads what a lookup of pages under a section printed: a page was found
/// exactly if a path was printed, that is if the output holds a `/`.
pub fn found_any_page(output: &str) -> (found: bool)
    ensures
        found == output@.contains('/'),
{
    crate::text::has_char(output, '/')
}

/// A copy of `items[from..]`.
pub fn copy_from(items: &[String], from: usize) -> (out: Vec<String>)
    requires
        from <= items.len(),
    ensures
        texts(out@) == texts(items@).skip(from as int),
{
    let mut out: Vec<String> = Vec::new();
    let mut i: usize = from;
    while i < items.len()
        invariant
            from <= i <= items.len(),
            texts(out@) == texts(items@).subrange(from as int, i as int),
        decreases items.len() - i,
    {
        let ghost before = texts(out@);
        let item = items[i].clone();
        assert(item@ == items@[i as int]@);
        out.push(item);
        assert(texts(out@) =~= before.push(items@[i as int]@));
        i += 1;
        assert(texts(out@) =~= texts(items@).subrange(from as int, i as int));
    }
    assert(texts(items@).subrange(from as int, items.len() as int) =~= texts(items@).skip(
        from as int,
    ));
    out
}

/// Reads `args`, given what the probe answered for section `args[0]` and
/// pages `args[1..]`. With fewer than two arguments the answer is dropped.
pub fn interpret(args: &[String], answer: Result<bool, ValidationError>) -> (outcome: Result<
    ArgsInterpretation,
    ValidationError,
>)
    ensures
        reading_of(outcome) == classified(texts(args@), probe_reply_of(answer)),
{
    if args.len() < 2 {
        let pages = copy_from(args, 0);
        assert(texts(args@).skip(0) =~= texts(args@));
        return Ok(ArgsInterpretation::Pages(pages));
    }
    match answer {
        Ok(found) => {
            if found {
                Ok(
                    ArgsInterpretation::SectionAndPages {
                        section: args[0].clone(),
                        pages: copy_from(args, 1),
                    },
                )
            } else {
                let pages = copy_from(args, 0);
                assert(texts(args@).skip(0) =~= texts(args@));
                Ok(ArgsInterpretation::Pages(pages))
            }
        },
        Err(error) => Err(error),
    }
}

/// Reads `args`: no argument and a single argument are page names; with
/// more, the probe decides whether the first is a section.
///
/// The probe is asked exactly if there are two or more arguments, for
/// section `args[0]` and pages `args[1..]`; the outcome is what `interpret`
/// makes of its answer.
pub fn classify_args<P: SectionProbe + ?Sized>(args: &[String], probe: &P) -> (outcome: Result<
    ArgsInterpretation,
    ValidationError,
>)
    ensures
        exists|reply: ProbeReply|
            #![trigger classified(texts(args@), reply)]
            {
                &&& probe_heard(probe, texts(args@), reply)
                &&& reading_of(outcome) == classified(texts(args@), reply)
            },
        !needs_probe(texts(args@)) ==> reading_of(outcome) == Ok::<Reading, ValidationFault>(
            Reading::Pages(texts(args@)),
        ),
{
    if args.len() < 2 {
        let outcome = interpret(args, Ok(false));
        assert(reading_of(outcome) == classified(texts(args@), Ok(false)));
        return outcome;
    }
    let pages = copy_from(args, 1);
    assert(texts(pages@).len() == pages@.len());
    let answer = probe.section_has_any_pages(args[0].as_str(), pages.as_slice());
    let ghost reply = probe_reply_of(answer);
    let outcome = interpret(args, answer);
    assert(reading_of(outcome) == classified(texts(args@), reply));
    outcome
}

} // verus!
