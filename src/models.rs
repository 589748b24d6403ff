//! Records returned by the mod database API.
use vstd::prelude::*;

verus! {

/// Simplified mod entry, as listed by `/mods`.
#[derive(Debug, Clone)]
pub struct SimpleMod {
    pub mod_id: u32,
    pub asset_id: u32,
    pub downloads: u32,
    pub follows: u32,
    pub trending_points: u32,
    pub comments: u32,
    pub name: String,
    pub summary: Option<String>,
    pub mod_id_strs: Vec<String>,
    pub author: String,
    pub url_alias: Option<String>,
    pub side: String,
    pub mod_type: String,
    pub logo: Option<String>,
    pub tags: Vec<String>,
    pub last_released: String,
}

/// Full mod entry, as returned by `/mod/{id}`.
#[derive(Debug, Clone)]
pub struct DetailedMod {
    pub mod_id: u32,
    pub asset_id: u32,
    pub name: String,
    pub text: String,
    pub author: String,
    pub url_alias: Option<String>,
    pub logo_filename: Option<String>,
    pub logo_file: Option<String>,
    pub logo_file_db: Option<String>,
    pub homepage_url: Option<String>,
    pub source_code_url: Option<String>,
    pub trailer_video_url: Option<String>,
    pub issue_tracker_url: Option<String>,
    pub wiki_url: Option<String>,
    pub downloads: u32,
    pub follows: u32,
    pub trending_points: u32,
    pub comments: u32,
    pub side: String,
    pub mod_type: String,
    pub created: String,
    pub last_released: String,
    pub last_modified: String,
    pub tags: Vec<String>,
    pub releases: Vec<DetailedModRelease>,
    pub screenshots: Vec<DetailedModScreenshot>,
}

/// One release of a mod (only part of `DetailedMod`).
#[derive(Debug, Clone)]
pub struct DetailedModRelease {
    pub release_id: u32,
    pub main_file: String,
    pub filename: Option<String>,
    pub file_id: Option<u32>,
    pub downloads: u32,
    pub tags: Vec<String>,
    pub mod_id_str: Option<String>,
    pub mod_version: String,
    pub created: String,
    pub changelog: Option<String>,
}

/// Screenshot entry of a mod.
#[derive(Debug, Clone)]
pub struct DetailedModScreenshot {
    pub file_id: u32,
    pub main_file: String,
    pub filename: String,
    pub thumbnail_filename: String,
    pub created: String,
}

/// Tag entry, as listed by `/tags`.
#[derive(Debug, Clone)]
pub struct Tag {
    pub tag_id: u32,
    pub name: String,
    pub color: String,
}

/// Author entry, as listed by `/authors`.
#[derive(Debug, Clone)]
pub struct Author {
    pub userid: u32,
    pub name: Option<String>,
}

/// Game version entry, as listed by `/gameversions`.
#[derive(Debug, Clone)]
pub struct GameVersion {
    pub tag_id: i64,
    pub name: String,
    pub color: String,
}

/// Comment entry, as listed by `/comments/{assetid}`.
#[derive(Debug, Clone)]
pub struct Comment {
    pub comment_id: u32,
    pub asset_id: u32,
    pub user_id: u32,
    pub text: String,
    pub created: String,
    pub last_modified: String,
}

/// The raw forms in which a release's `filename` field arrives.
#[derive(Debug, Clone)]
pub enum FilenameField {
    Text(String),
    Number,
    Absent,
}

/// A release filename after normalization: only text is kept.
pub open spec fn filename_field_value(f: FilenameField) -> Option<Seq<char>> {
    match f {
        FilenameField::Text(s) => Some(s@),
        _ => None,
    }
}

/// Collapses every non-text form of the raw `filename` field to "no filename".
pub fn normalize_filename(f: FilenameField) -> (r: Option<String>)
    ensures
        opt_view(r) == filename_field_value(f),
{
    match f {
        FilenameField::Text(s) => Some(s),
        FilenameField::Number => None,
        FilenameField::Absent => None,
    }
}

/// The filename a release is stored under: the explicit filename, else
/// `{mod_id_str}.zip`, else the main file reference.
pub open spec fn effective_filename(
    filename: Option<Seq<char>>,
    mod_id_str: Option<Seq<char>>,
    main_file: Seq<char>,
) -> Seq<char> {
    match filename {
        Some(f) => f,
        None => match mod_id_str {
            Some(m) => m + seq!['.', 'z', 'i', 'p'],
            None => main_file,
        },
    }
}

pub open spec fn opt_view(o: Option<String>) -> Option<Seq<char>> {
    match o {
        Some(s) => Some(s@),
        None => None,
    }
}

impl DetailedModRelease {
    /// The filename of this release, falling back to `{mod_id_str}.zip` and
    /// then to the main file reference.
    pub fn get_filename(&self) -> (r: String)
        ensures
            r@ == effective_filename(opt_view(self.filename), opt_view(self.mod_id_str), self.main_file@),
    {
        match &self.filename {
            Some(f) => f.clone(),
            None => match &self.mod_id_str {
                Some(m) => {
                    let mut name = m.clone();
                    name.append(".zip");
                    proof {
                        reveal_strlit(".zip");
                    }
                    name
                },
                None => self.main_file.clone(),
            },
        }
    }
}

/// The string views of a list of strings.
pub open spec fn strings_view(v: Seq<String>) -> Seq<Seq<char>> {
    v.map_values(|s: String| s@)
}

/// The mod-id strings that a list of releases carries, in release order.
pub open spec fn release_mod_ids(rs: Seq<DetailedModRelease>) -> Seq<Seq<char>>
    decreases rs.len(),
{
    if rs.len() == 0 {
        Seq::empty()
    } else {
        let prefix = release_mod_ids(rs.drop_last());
        match rs.last().mod_id_str {
            Some(s) => prefix.push(s@),
            None => prefix,
        }
    }
}

impl SimpleMod {
    /// The simplified shape of a detailed mod; the alias list is gathered
    /// from the releases' mod-id strings.
    pub fn from_detailed(detail: DetailedMod) -> (r: SimpleMod)
        ensures
            r.mod_id == detail.mod_id,
            r.asset_id == detail.asset_id,
            r.downloads == detail.downloads,
            r.follows == detail.follows,
            r.trending_points == detail.trending_points,
            r.comments == detail.comments,
            r.name == detail.name,
            r.summary == Some(detail.text),
            strings_view(r.mod_id_strs@) == release_mod_ids(detail.releases@),
            r.author == detail.author,
            r.url_alias == detail.url_alias,
            r.side == detail.side,
            r.mod_type == detail.mod_type,
            r.logo == detail.logo_file,
            r.tags == detail.tags,
            r.last_released == detail.last_released,
    {
        let mut ids: Vec<String> = Vec::new();
        let n = detail.releases.len();
        let mut i: usize = 0;
        while i < n
            invariant
                n == detail.releases@.len(),
                i <= n,
                strings_view(ids@) == release_mod_ids(detail.releases@.take(i as int)),
            decreases n - i,
        {
            let ghost taken = detail.releases@.take(i as int + 1);
            assert(taken.drop_last() == detail.releases@.take(i as int));
            match &detail.releases[i] {
                DetailedModRelease { mod_id_str: Some(s), .. } => {
                    ids.push(s.clone());
                },
                _ => {},
            }
            assert(strings_view(ids@) =~= release_mod_ids(taken));
            i = i + 1;
        }
        assert(detail.releases@.take(n as int) == detail.releases@);
        SimpleMod {
            mod_id: detail.mod_id,
            asset_id: detail.asset_id,
            downloads: detail.downloads,
            follows: detail.follows,
            trending_points: detail.trending_points,
            comments: detail.comments,
            name: detail.name,
            summary: Some(detail.text),
            mod_id_strs: ids,
            author: detail.author,
            url_alias: detail.url_alias,
            side: detail.side,
            mod_type: detail.mod_type,
            logo: detail.logo_file,
            tags: detail.tags,
            last_released: detail.last_released,
        }
    }
}

/// Placeholder text for the creation date of a mod built from a simple entry.
pub const CREATED_UNKNOWN: &'static str = "Creation date not available";

/// Placeholder text for the modification date of a mod built from a simple entry.
pub const MODIFIED_UNKNOWN: &'static str = "Modified date not available";

impl DetailedMod {
    /// The detailed shape of a simple mod: fields it lacks are empty, the
    /// summary becomes the text and the logo fills all three logo fields.
    pub fn from_simple(simple: SimpleMod) -> (r: DetailedMod)
        ensures
            r.mod_id == simple.mod_id,
            r.asset_id == simple.asset_id,
            r.name == simple.name,
            r.text@ == match simple.summary {
                Some(t) => t@,
                None => Seq::<char>::empty(),
            },
            r.author == simple.author,
            r.url_alias == simple.url_alias,
            r.logo_filename == simple.logo,
            r.logo_file == simple.logo,
            r.logo_file_db == simple.logo,
            r.homepage_url is None,
            r.source_code_url is None,
            r.trailer_video_url is None,
            r.issue_tracker_url is None,
            r.wiki_url is None,
            r.downloads == simple.downloads,
            r.follows == simple.follows,
            r.trending_points == simple.trending_points,
            r.comments == simple.comments,
            r.side == simple.side,
            r.mod_type == simple.mod_type,
            r.created@ == CREATED_UNKNOWN@,
            r.last_released == simple.last_released,
            r.last_modified@ == MODIFIED_UNKNOWN@,
            r.tags == simple.tags,
            r.releases@.len() == 0,
            r.screenshots@.len() == 0,
    {
        let text = match simple.summary {
            Some(t) => t,
            None => String::new(),
        };
        let logo_filename = match &simple.logo {
            Some(l) => Some(l.clone()),
            None => None,
        };
        let logo_file = match &simple.logo {
            Some(l) => Some(l.clone()),
            None => None,
        };
        DetailedMod {
            mod_id: simple.mod_id,
            asset_id: simple.asset_id,
            name: simple.name,
            text,
            author: simple.author,
            url_alias: simple.url_alias,
            logo_filename,
            logo_file,
            logo_file_db: simple.logo,
            homepage_url: None,
            source_code_url: None,
            trailer_video_url: None,
            issue_tracker_url: None,
            wiki_url: None,
            downloads: simple.downloads,
            follows: simple.follows,
            trending_points: simple.trending_points,
            comments: simple.comments,
            side: simple.side,
            mod_type: simple.mod_type,
            created: String::from_str(CREATED_UNKNOWN),
            last_released: simple.last_released,
            last_modified: String::from_str(MODIFIED_UNKNOWN),
            tags: simple.tags,
            releases: Vec::new(),
            screenshots: Vec::new(),
        }
    }
}

} // verus!
