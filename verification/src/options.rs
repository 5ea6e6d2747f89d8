//! The launch options that fill the placeholders of launch arguments, and
//! the placeholder each one fills.
use crate::text::to_owned_string;
use vstd::prelude::*;

pub use crate::arguments::LaunchOptions;

verus! {

/// A launch option that fills a placeholder.
#[derive(Clone, Copy, PartialEq, Eq, Structural)]
pub enum OptionField {
    NativesDirectory,
    Classpath,
    PlayerName,
    Version,
    GameDirectory,
    AssetsDirectory,
    AssetsIndex,
    PlayerUuid,
    PlayerToken,
    UserType,
    VersionType,
    Width,
    Height,
}

/// The value an option gives its placeholder; a resolution that is not
/// set gives the empty text.
pub open spec fn option_value(f: OptionField, o: LaunchOptions) -> Seq<char> {
    match f {
        OptionField::NativesDirectory => o.natives_directory@,
        OptionField::Classpath => o.classpath@,
        OptionField::PlayerName => o.player_name@,
        OptionField::Version => o.version@,
        OptionField::GameDirectory => o.game_directory@,
        OptionField::AssetsDirectory => o.assets_directory@,
        OptionField::AssetsIndex => o.assets_index@,
        OptionField::PlayerUuid => o.player_uuid@,
        OptionField::PlayerToken => o.player_token@,
        OptionField::UserType => o.user_type@,
        OptionField::VersionType => o.version_type@,
        OptionField::Width => match o.width {
            Some(w) => w@,
            None => ""@,
        },
        OptionField::Height => match o.height {
            Some(h) => h@,
            None => ""@,
        },
    }
}

impl OptionField {
    /// The value this option gives its placeholder.
    pub fn get(&self, options: &LaunchOptions) -> (r: String)
        ensures
            r@ == option_value(*self, *options),
    {
        match self {
            OptionField::NativesDirectory => options.natives_directory.clone(),
            OptionField::Classpath => options.classpath.clone(),
            OptionField::PlayerName => options.player_name.clone(),
            OptionField::Version => options.version.clone(),
            OptionField::GameDirectory => options.game_directory.clone(),
            OptionField::AssetsDirectory => options.assets_directory.clone(),
            OptionField::AssetsIndex => options.assets_index.clone(),
            OptionField::PlayerUuid => options.player_uuid.clone(),
            OptionField::PlayerToken => options.player_token.clone(),
            OptionField::UserType => options.user_type.clone(),
            OptionField::VersionType => options.version_type.clone(),
            OptionField::Width => match &options.width {
                None => to_owned_string(""),
                Some(w) => w.clone(),
            },
            OptionField::Height => match &options.height {
                None => to_owned_string(""),
                Some(h) => h.clone(),
            },
        }
    }
}

/// The placeholder of each option, in this order.
pub open spec fn option_map_model() -> Seq<(OptionField, Seq<char>)> {
    seq![
        (OptionField::NativesDirectory, "natives_directory"@),
        (OptionField::Classpath, "classpath"@),
        (OptionField::PlayerName, "auth_player_name"@),
        (OptionField::Version, "version_name"@),
        (OptionField::GameDirectory, "game_directory"@),
        (OptionField::AssetsDirectory, "assets_root"@),
        (OptionField::AssetsIndex, "assets_index_name"@),
        (OptionField::PlayerUuid, "auth_uuid"@),
        (OptionField::PlayerToken, "auth_access_token"@),
        (OptionField::UserType, "user_type"@),
        (OptionField::VersionType, "version_type"@),
        (OptionField::Width, "resolution_width"@),
        (OptionField::Height, "resolution_height"@),
    ]
}

pub open spec fn option_entries_model(v: Seq<(OptionField, &'static str)>) -> Seq<(OptionField, Seq<char>)> {
    Seq::new(v.len(), |i: int| (v[i].0, v[i].1@))
}

/// Each option with the name of the placeholder it fills.
pub fn get_option_to_arg_map() -> (r: Vec<(OptionField, &'static str)>)
    ensures
        option_entries_model(r@) == option_map_model(),
{
    let mut map: Vec<(OptionField, &'static str)> = Vec::new();
    map.push((OptionField::NativesDirectory, "natives_directory"));
    map.push((OptionField::Classpath, "classpath"));
    map.push((OptionField::PlayerName, "auth_player_name"));
    map.push((OptionField::Version, "version_name"));
    map.push((OptionField::GameDirectory, "game_directory"));
    map.push((OptionField::AssetsDirectory, "assets_root"));
    map.push((OptionField::AssetsIndex, "assets_index_name"));
    map.push((OptionField::PlayerUuid, "auth_uuid"));
    map.push((OptionField::PlayerToken, "auth_access_token"));
    map.push((OptionField::UserType, "user_type"));
    map.push((OptionField::VersionType, "version_type"));
    map.push((OptionField::Width, "resolution_width"));
    map.push((OptionField::Height, "resolution_height"));
    assert(option_entries_model(map@) =~= option_map_model());
    map
}

/// Every option appears in the map exactly once.
pub proof fn lemma_each_option_once(f: OptionField)
    ensures
        exists|i: int| 0 <= i < option_map_model().len() && (#[trigger] option_map_model()[i]).0 == f,
        forall|i: int, j: int|
            0 <= i < j < option_map_model().len() ==> (#[trigger] option_map_model()[i]).0
                != (#[trigger] option_map_model()[j]).0,
{
    let m = option_map_model();
    let i: int = match f {
        OptionField::NativesDirectory => 0,
        OptionField::Classpath => 1,
        OptionField::PlayerName => 2,
        OptionField::Version => 3,
        OptionField::GameDirectory => 4,
        OptionField::AssetsDirectory => 5,
        OptionField::AssetsIndex => 6,
        OptionField::PlayerUuid => 7,
        OptionField::PlayerToken => 8,
        OptionField::UserType => 9,
        OptionField::VersionType => 10,
        OptionField::Width => 11,
        OptionField::Height => 12,
    };
    assert(m[i].0 == f);
}

} // verus!
