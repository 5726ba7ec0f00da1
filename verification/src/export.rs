//! Exporting pages as images: which pages, at what resolution and in which
//! format, the checks made before any file is written, and what the status
//! line says.

use vstd::prelude::*;

use crate::text::{decimal, decimal_string, join};

verus! {

/// The resolutions the dialog offers, in dots per inch.
pub const MIN_DPI: u32 = 72;
pub const MAX_DPI: u32 = 400;
pub const DEFAULT_DPI: u32 = 150;

/// Said when exporting a document with no pages.
pub const NO_PAGES_TO_EXPORT: &'static str = "This document has no pages to export.";

/// Said when exporting with no document open.
pub const OPEN_FIRST: &'static str = "Open a PDF before exporting it.";

/// Said when the open document has no pages.
pub const NO_PAGES: &'static str = "The PDF has no pages to export.";

pub const EXPORT_CANCELLED: &'static str = "Export cancelled.";

/// The image formats pages export to, in dropdown order.
#[derive(Clone, Copy, Debug, PartialEq, Eq, Structural)]
pub enum ExportFormat {
    Png,
    Jpeg,
}

/// The format a dropdown row stands for; no row (or any row past the list)
/// is PNG.
pub fn format_at(index: u32) -> (format: ExportFormat)
    ensures
        format == (if index == 1 {
            ExportFormat::Jpeg
        } else {
            ExportFormat::Png
        }),
{
    if index == 1 {
        ExportFormat::Jpeg
    } else {
        ExportFormat::Png
    }
}

/// Which pages the dialog asks for.
#[derive(Clone, Copy, Debug, PartialEq, Eq, Structural)]
pub enum PageChoice {
    All,
    Current,
    Custom,
}

/// The zero-based page indices `0..total`.
pub open spec fn every_page(total: nat) -> Seq<u32> {
    Seq::new(total, |i: int| i as u32)
}

/// The pages to export: every page, the current one (the last page when
/// the current index is past the end), or what the page-selection grammar
/// read from the custom entry (`custom`, read only for a custom choice;
/// its error carries the grammar's own message). A document with no pages
/// is refused whatever was chosen.
pub fn resolve_pages(
    choice: PageChoice,
    custom: Result<Vec<u32>, String>,
    current_page: u32,
    total_pages: u32,
) -> (pages: Result<Vec<u32>, String>)
    ensures
        total_pages == 0 ==> (pages matches Err(message) && message@ == NO_PAGES_TO_EXPORT@),
        total_pages > 0 ==> match choice {
            PageChoice::All => pages matches Ok(v) && v@ == every_page(total_pages as nat),
            PageChoice::Current => pages matches Ok(v) && v@ == seq![
                if current_page < total_pages {
                    current_page
                } else {
                    (total_pages - 1) as u32
                },
            ],
            PageChoice::Custom => pages == custom,
        },
{
    if total_pages == 0 {
        return Err(NO_PAGES_TO_EXPORT.to_owned());
    }
    match choice {
        PageChoice::All => {
            let mut pages: Vec<u32> = Vec::new();
            let mut i: u32 = 0;
            while i < total_pages
                invariant
                    i <= total_pages,
                    pages@ == every_page(i as nat),
                decreases total_pages - i,
            {
                pages.push(i);
                i = i + 1;
                assert(pages@ =~= every_page(i as nat));
            }
            Ok(pages)
        },
        PageChoice::Current => {
            let page = if current_page < total_pages {
                current_page
            } else {
                total_pages - 1
            };
            Ok(vec![page])
        },
        PageChoice::Custom => custom,
    }
}

/// The first page of `pages`, one-based, that the document has and that
/// cannot be rastered at the chosen resolution (`fits[i]` tells whether
/// page `i` can); a page the document does not have is not called
/// oversized.
pub open spec fn spec_oversized(fits: Seq<bool>, pages: Seq<u32>) -> Option<int>
    decreases pages.len(),
{
    if pages.len() == 0 {
        None
    } else {
        let page = pages[0];
        if page < fits.len() && !fits[page as int] {
            Some(page + 1)
        } else {
            spec_oversized(fits, pages.drop_first())
        }
    }
}

/// Names the first selected page too large to render, before any file is
/// written.
pub fn oversized_page(fits: &[bool], pages: &[u32]) -> (page: Option<u32>)
    requires
        fits@.len() <= u32::MAX,
    ensures
        page matches Some(p) ==> spec_oversized(fits@, pages@) == Some(p as int),
        page is None ==> spec_oversized(fits@, pages@) is None,
{
    let mut i: usize = 0;
    assert(pages@.skip(0) =~= pages@);
    while i < pages.len()
        invariant
            i <= pages@.len(),
            fits@.len() <= u32::MAX,
            spec_oversized(fits@, pages@) == spec_oversized(fits@, pages@.skip(i as int)),
        decreases pages@.len() - i,
    {
        let page = pages[i];
        assert(pages@.skip(i as int)[0] == page);
        assert(pages@.skip(i as int).drop_first() =~= pages@.skip(i + 1));
        if (page as usize) < fits.len() && !fits[page as usize] {
            return Some(page + 1);
        }
        i = i + 1;
    }
    assert(pages@.skip(i as int).len() == 0);
    None
}

/// "page" for one, "pages" otherwise.
pub open spec fn page_noun(count: nat) -> Seq<char> {
    if count == 1 {
        "page"@
    } else {
        "pages"@
    }
}

fn page_noun_str(count: u64) -> (noun: &'static str)
    ensures
        noun@ == page_noun(count as nat),
{
    if count == 1 {
        "page"
    } else {
        "pages"
    }
}

/// The status line once `count` pages were written into `folder`:
/// "Exported 1 page to <folder>." or "Exported 12 pages to <folder>.".
pub fn export_summary(count: u64, folder: &str) -> (summary: String)
    ensures
        summary@ == "Exported "@ + decimal(count as nat) + " "@ + page_noun(count as nat) + " to "@
            + folder@ + "."@,
{
    let digits = decimal_string(count);
    let head = join("Exported ", digits.as_str());
    let head = join(head.as_str(), " ");
    let head = join(head.as_str(), page_noun_str(count));
    let head = join(head.as_str(), " to ");
    let head = join(head.as_str(), folder);
    join(head.as_str(), ".")
}

/// The status line while `count` pages are being written.
pub fn exporting_message(count: u64) -> (message: String)
    ensures
        message@ == "Exporting "@ + decimal(count as nat) + " "@ + page_noun(count as nat) + "…"@,
{
    let digits = decimal_string(count);
    let head = join("Exporting ", digits.as_str());
    let head = join(head.as_str(), " ");
    let head = join(head.as_str(), page_noun_str(count));
    join(head.as_str(), "…")
}

/// Why a page failed to export, naming it one-based.
pub fn page_failure_message(page: u32, error: &str) -> (message: String)
    ensures
        message@ == "Page "@ + decimal((page + 1) as nat) + " could not be exported: "@ + error@,
{
    let digits = decimal_string(page as u64 + 1);
    let head = join("Page ", digits.as_str());
    let head = join(head.as_str(), " could not be exported: ");
    join(head.as_str(), error)
}

/// The resolution the spin button holds, never below one dot per inch.
pub fn export_dpi(value: i32) -> (dpi: u32)
    ensures
        dpi == (if value < 1 {
            1
        } else {
            value as int
        }),
{
    if value < 1 {
        1
    } else {
        value as u32
    }
}

/// What the dialog hands on once Export is pressed.
#[derive(Clone, Debug, PartialEq)]
pub struct ExportOptions {
    pub pages: Vec<u32>,
    pub dpi: u32,
    pub format: ExportFormat,
}

/// Said when a selected page cannot be rastered at the chosen resolution.
pub fn oversize_message(page: u32, dpi: u32) -> (message: String)
    ensures
        message@ == "Page "@ + decimal(page as nat) + " is too large to render at "@ + decimal(
            dpi as nat,
        ) + " DPI. Choose a lower resolution."@,
{
    let page_digits = decimal_string(page as u64);
    let dpi_digits = decimal_string(dpi as u64);
    let head = join("Page ", page_digits.as_str());
    let head = join(head.as_str(), " is too large to render at ");
    let head = join(head.as_str(), dpi_digits.as_str());
    join(head.as_str(), " DPI. Choose a lower resolution.")
}

/// What pressing Export decides: the resolved pages or their error, then
/// the first oversized page (named in the error shown in the dialog, which
/// stays open), or the options to export with.
pub fn submit_export(
    pages: Result<Vec<u32>, String>,
    fits: &[bool],
    dpi: u32,
    format_index: u32,
) -> (submitted: Result<ExportOptions, String>)
    requires
        fits@.len() <= u32::MAX,
    ensures
        match pages {
            Err(message) => submitted == Err::<ExportOptions, String>(message),
            Ok(v) => match spec_oversized(fits@, v@) {
                Some(p) => submitted matches Err(message) && message@ == "Page "@ + decimal(
                    p as nat,
                ) + " is too large to render at "@ + decimal(dpi as nat)
                    + " DPI. Choose a lower resolution."@,
                None => submitted == Ok::<ExportOptions, String>(
                    ExportOptions {
                        pages: v,
                        dpi,
                        format: if format_index == 1 {
                            ExportFormat::Jpeg
                        } else {
                            ExportFormat::Png
                        },
                    },
                ),
            },
        },
{
    match pages {
        Err(message) => Err(message),
        Ok(selected) => {
            if let Some(page) = oversized_page(fits, selected.as_slice()) {
                return Err(oversize_message(page, dpi));
            }
            Ok(ExportOptions { pages: selected, dpi, format: format_at(format_index) })
        },
    }
}

/// What starting an export decides, before the dialog opens.
#[derive(Clone, Debug, PartialEq)]
pub enum ExportStart {
    /// Refused, with the message to show.
    Refuse(String),
    /// Ask for the options, starting from this current page.
    Prompt { current_page: u32 },
}

/// Starting an export: refused while text extraction is (for
/// `extraction_refusal`), with no document open, or with no pages;
/// otherwise the dialog opens on the first visible page (0 when none is).
pub fn export_start(
    extraction_refusal: Option<&str>,
    page_count: Option<usize>,
    first_visible: Option<u32>,
) -> (start: ExportStart)
    ensures
        extraction_refusal is Some ==> (start matches ExportStart::Refuse(m) && m@
            == extraction_refusal->0@),
        extraction_refusal is None && page_count is None ==> (start matches ExportStart::Refuse(m)
            && m@ == OPEN_FIRST@),
        extraction_refusal is None && page_count == Some(0usize) ==> (
        start matches ExportStart::Refuse(m) && m@ == NO_PAGES@),
        extraction_refusal is None && (page_count matches Some(n) && n > 0) ==> start == (
        ExportStart::Prompt {
            current_page: match first_visible {
                Some(p) => p,
                None => 0,
            },
        }),
{
    if let Some(refusal) = extraction_refusal {
        return ExportStart::Refuse(refusal.to_owned());
    }
    match page_count {
        None => ExportStart::Refuse(OPEN_FIRST.to_owned()),
        Some(0) => ExportStart::Refuse(NO_PAGES.to_owned()),
        Some(_) => ExportStart::Prompt {
            current_page: match first_visible {
                Some(p) => p,
                None => 0,
            },
        },
    }
}

} // verus!
