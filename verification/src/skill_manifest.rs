//! Skill manifests: the front matter of a skill's description file, told
//! from its body, and the catalogue of skills that a prompt shows.

use crate::json::Json;
use crate::text::{lines, split_lines, str_eq, trim, trimmed, views};
use vstd::prelude::*;
use vstd::string::StringExecFns;

verus! {

/// The front matter of a skill's description file.
#[derive(Debug)]
pub struct SkillFrontmatter {
    pub name: String,
    pub description: String,
    pub license: Option<String>,
    pub compatibility: Option<String>,
    pub metadata: Option<Json>,
    pub allowed_tools: Option<String>,
}

/// A skill's description file: its front matter, and the body as it is.
#[derive(Debug)]
pub struct SkillManifest {
    pub frontmatter: SkillFrontmatter,
    pub body: String,
}

/// Model of a [`SkillManifestError`].
pub ghost enum SkillManifestErrorView {
    MissingDelimiter,
    MissingFrontmatter,
    FrontmatterParse(Seq<char>),
}

impl SkillManifestErrorView {
    /// The error as a line of text.
    pub open spec fn describe(self) -> Seq<char> {
        match self {
            SkillManifestErrorView::MissingDelimiter => "missing frontmatter delimiter '---'"@,
            SkillManifestErrorView::MissingFrontmatter => "frontmatter not found"@,
            SkillManifestErrorView::FrontmatterParse(m) => "failed to parse frontmatter: "@ + m,
        }
    }

    /// The error as a reader of the catalogue is told it.
    pub open spec fn explained(self) -> Seq<char> {
        match self {
            SkillManifestErrorView::MissingDelimiter => "missing YAML frontmatter delimiter"@,
            SkillManifestErrorView::MissingFrontmatter => "missing YAML frontmatter content"@,
            SkillManifestErrorView::FrontmatterParse(m) => "invalid frontmatter: "@ + m,
        }
    }
}

/// Why a description file is no manifest.
#[derive(Debug, PartialEq, Eq)]
pub enum SkillManifestError {
    /// The file does not begin with a `---` line.
    MissingDelimiter,
    /// The file is empty, or its front matter is not closed.
    MissingFrontmatter,
    /// The front matter is not what a manifest holds.
    FrontmatterParse(String),
}

impl View for SkillManifestError {
    type V = SkillManifestErrorView;

    open spec fn view(&self) -> SkillManifestErrorView {
        match self {
            SkillManifestError::MissingDelimiter => SkillManifestErrorView::MissingDelimiter,
            SkillManifestError::MissingFrontmatter => SkillManifestErrorView::MissingFrontmatter,
            SkillManifestError::FrontmatterParse(m) => SkillManifestErrorView::FrontmatterParse(m@),
        }
    }
}

impl SkillManifestError {
    /// The error as a line of text.
    pub fn to_string(&self) -> (r: String)
        ensures
            r@ == self@.describe(),
    {
        match self {
            SkillManifestError::MissingDelimiter => String::from_str(
                "missing frontmatter delimiter '---'",
            ),
            SkillManifestError::MissingFrontmatter => String::from_str("frontmatter not found"),
            SkillManifestError::FrontmatterParse(m) => String::from_str(
                "failed to parse frontmatter: ",
            ).concat(m.as_str()),
        }
    }
}

/// The error as a reader of the catalogue is told it.
pub fn format_manifest_error(err: SkillManifestError) -> (r: String)
    ensures
        r@ == err@.explained(),
{
    match err {
        SkillManifestError::MissingDelimiter => String::from_str(
            "missing YAML frontmatter delimiter",
        ),
        SkillManifestError::MissingFrontmatter => String::from_str(
            "missing YAML frontmatter content",
        ),
        SkillManifestError::FrontmatterParse(msg) => String::from_str(
            "invalid frontmatter: ",
        ).concat(msg.as_str()),
    }
}

/// Model of [`ManifestParts`].
pub ghost struct ManifestPartsView {
    pub frontmatter: Seq<char>,
    pub body: Seq<char>,
}

/// The two parts of a description file, as text.
#[derive(Debug, PartialEq, Eq)]
pub struct ManifestParts {
    /// The lines between the two `---` lines, each with a line feed
    /// behind it.
    pub frontmatter: String,
    /// The lines behind the second `---` line, with line feeds between
    /// them.
    pub body: String,
}

impl View for ManifestParts {
    type V = ManifestPartsView;

    open spec fn view(&self) -> ManifestPartsView {
        ManifestPartsView { frontmatter: self.frontmatter@, body: self.body@ }
    }
}

/// A line that is `---` and, around it, whitespace at most.
pub open spec fn is_delimiter(line: Seq<char>) -> bool {
    trimmed(line) == "---"@
}

/// The index of the first delimiter line at or behind `from`; the number
/// of lines where there is none.
pub open spec fn closing_line(all: Seq<Seq<char>>, from: int) -> int
    decreases all.len() - from,
{
    if from >= all.len() {
        all.len() as int
    } else if is_delimiter(all[from]) {
        from
    } else {
        closing_line(all, from + 1)
    }
}

/// The lines, each with a line feed behind it.
pub open spec fn terminated(all: Seq<Seq<char>>) -> Seq<char>
    decreases all.len(),
{
    if all.len() == 0 {
        Seq::empty()
    } else {
        terminated(all.drop_last()) + all.last() + "\n"@
    }
}

/// The lines, with line feeds between them.
pub open spec fn joined(all: Seq<Seq<char>>) -> Seq<char>
    decreases all.len(),
{
    if all.len() == 0 {
        Seq::empty()
    } else if all.len() == 1 {
        all[0]
    } else {
        joined(all.drop_last()) + "\n"@ + all.last()
    }
}

/// The parts of a description file: it must begin with a delimiter
/// line, and a second one must close the front matter.
pub open spec fn manifest_parts(markdown: Seq<char>) -> Result<
    ManifestPartsView,
    SkillManifestErrorView,
> {
    let all = lines(markdown);
    if all.len() == 0 {
        Err(SkillManifestErrorView::MissingFrontmatter)
    } else if !is_delimiter(all[0]) {
        Err(SkillManifestErrorView::MissingDelimiter)
    } else if closing_line(all, 1) >= all.len() {
        Err(SkillManifestErrorView::MissingFrontmatter)
    } else {
        Ok(
            ManifestPartsView {
                frontmatter: terminated(all.subrange(1, closing_line(all, 1))),
                body: joined(all.subrange(closing_line(all, 1) + 1, all.len() as int)),
            },
        )
    }
}

/// Whether a line is `---` and, around it, whitespace at most.
pub fn is_delimiter_line(line: &str) -> (r: bool)
    ensures
        r == is_delimiter(line@),
{
    str_eq(trim(line), "---")
}

/// The lines from index `from` on, with line feeds between them.
fn join_from(all: &Vec<String>, from: usize) -> (r: String)
    requires
        from <= all.len(),
    ensures
        r@ == joined(views(all@).subrange(from as int, all.len() as int)),
{
    let ghost texts = views(all@);
    let mut body = String::new();
    let mut j: usize = from;
    assert(texts.subrange(from as int, from as int) =~= Seq::empty());
    while j < all.len()
        invariant
            from <= j <= all.len(),
            texts == views(all@),
            body@ == joined(texts.subrange(from as int, j as int)),
        decreases all.len() - j,
    {
        let ghost before = body@;
        proof {
            let next = texts.subrange(from as int, j + 1);
            assert(next.drop_last() =~= texts.subrange(from as int, j as int));
            assert(next.last() == all@[j as int]@);
        }
        if j > from {
            body.append("\n");
        }
        body.append(all[j].as_str());
        proof {
            if j == from {
                assert(before =~= Seq::<char>::empty());
                assert(body@ =~= all@[j as int]@);
                assert(texts.subrange(from as int, j + 1)[0] == all@[j as int]@);
            }
        }
        j += 1;
    }
    body
}

/// Tells the front matter of a description file from its body.
pub fn split_manifest(markdown: &str) -> (r: Result<ManifestParts, SkillManifestError>)
    ensures
        match r {
            Ok(parts) => manifest_parts(markdown@) == Ok::<
                ManifestPartsView,
                SkillManifestErrorView,
            >(parts@),
            Err(e) => manifest_parts(markdown@) == Err::<ManifestPartsView, SkillManifestErrorView>(
                e@,
            ),
        },
{
    let all = split_lines(markdown);
    let ghost texts = views(all@);
    if all.len() == 0 {
        return Err(SkillManifestError::MissingFrontmatter);
    }
    assert(texts[0] == all@[0]@);
    if !is_delimiter_line(all[0].as_str()) {
        return Err(SkillManifestError::MissingDelimiter);
    }
    let mut frontmatter = String::new();
    let mut i: usize = 1;
    assert(texts.subrange(1, 1) =~= Seq::empty());
    while i < all.len()
        invariant
            1 <= i <= all.len(),
            texts == views(all@),
            texts == lines(markdown@),
            is_delimiter(texts[0]),
            closing_line(texts, 1) == closing_line(texts, i as int),
            frontmatter@ == terminated(texts.subrange(1, i as int)),
        decreases all.len() - i,
    {
        assert(texts[i as int] == all@[i as int]@);
        if is_delimiter_line(all[i].as_str()) {
            let body = join_from(&all, i + 1);
            return Ok(ManifestParts { frontmatter, body });
        }
        proof {
            let next = texts.subrange(1, i + 1);
            assert(next.drop_last() =~= texts.subrange(1, i as int));
            assert(next.last() == texts[i as int]);
        }
        frontmatter.append(all[i].as_str());
        frontmatter.append("\n");
        i += 1;
    }
    Err(SkillManifestError::MissingFrontmatter)
}

/// A skill that was found: where, and its manifest.
#[derive(Debug)]
pub struct DiscoveredSkill {
    /// The skill's directory.
    pub path: String,
    pub manifest: SkillManifest,
}

/// Model of a [`DiscoveredSkill`], as far as a catalogue shows it.
pub ghost struct CatalogueEntry {
    pub name: Seq<char>,
    pub description: Seq<char>,
    pub location: Seq<char>,
}

impl View for DiscoveredSkill {
    type V = CatalogueEntry;

    open spec fn view(&self) -> CatalogueEntry {
        CatalogueEntry {
            name: self.manifest.frontmatter.name@,
            description: self.manifest.frontmatter.description@,
            location: self.path@,
        }
    }
}

/// One skill of a catalogue, as markup.
pub open spec fn catalogue_entry_text(entry: CatalogueEntry) -> Seq<char> {
    "<skill>\n<name>\n"@ + entry.name + "\n</name>\n<description>\n"@ + entry.description
        + "\n</description>\n<location>\n"@ + entry.location + "\n</location>\n</skill>\n"@
}

/// The skills of a catalogue, as markup, in order.
pub open spec fn catalogue_entries_text(entries: Seq<CatalogueEntry>) -> Seq<char>
    decreases entries.len(),
{
    if entries.len() == 0 {
        Seq::empty()
    } else {
        catalogue_entries_text(entries.drop_last()) + catalogue_entry_text(entries.last())
    }
}

/// The catalogue of skills that a prompt shows.
pub open spec fn catalogue_text(entries: Seq<CatalogueEntry>) -> Seq<char> {
    "<available_skills>\n"@ + catalogue_entries_text(entries) + "</available_skills>"@
}

/// The entries of the skills of `skills`.
pub open spec fn entries_of(skills: Seq<DiscoveredSkill>) -> Seq<CatalogueEntry> {
    Seq::new(skills.len(), |i: int| skills[i]@)
}

/// Builds the catalogue of skills that a prompt shows.
pub fn build_available_skills_prompt(skills: &[DiscoveredSkill]) -> (r: String)
    ensures
        r@ == catalogue_text(entries_of(skills@)),
{
    let ghost entries = entries_of(skills@);
    let mut out = String::from_str("<available_skills>\n");
    let mut i: usize = 0;
    assert(entries.take(0) =~= Seq::empty());
    assert(out@ =~= "<available_skills>\n"@ + catalogue_entries_text(entries.take(0)));
    while i < skills.len()
        invariant
            i <= skills.len(),
            entries == entries_of(skills@),
            out@ == "<available_skills>\n"@ + catalogue_entries_text(entries.take(i as int)),
        decreases skills.len() - i,
    {
        let skill = &skills[i];
        let ghost before = out@;
        proof {
            assert(entries.take(i + 1).drop_last() =~= entries.take(i as int));
            assert(entries.take(i + 1).last() == skill@);
        }
        out.append("<skill>\n<name>\n");
        out.append(skill.manifest.frontmatter.name.as_str());
        out.append("\n</name>\n<description>\n");
        out.append(skill.manifest.frontmatter.description.as_str());
        out.append("\n</description>\n<location>\n");
        out.append(skill.path.as_str());
        out.append("\n</location>\n</skill>\n");
        assert(out@ =~= before + catalogue_entry_text(skill@));
        assert(out@ =~= "<available_skills>\n"@ + catalogue_entries_text(entries.take(i + 1)));
        i += 1;
    }
    assert(entries.take(skills.len() as int) =~= entries);
    out.append("</available_skills>");
    out
}

} // verus!
