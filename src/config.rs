use vstd::prelude::*;

verus! {

/// The settings the manager keeps between runs.
#[derive(Debug, Clone)]
pub struct Config {
    /// Directory of the game server.
    pub server_path: String,
    /// Directory of the plugin project.
    pub plugin_path: String,
    pub max_players: u32,
    pub enable_tournaments: bool,
    pub enable_cosmetics: bool,
}

impl Default for Config {
    /// The settings used when none were saved.
    fn default() -> (r: Self)
        ensures
            r.server_path@ == "./test-server"@,
            r.plugin_path@ == "."@,
            r.max_players == 100,
            r.enable_tournaments,
            r.enable_cosmetics,
    {
        Config {
            server_path: String::from_str("./test-server"),
            plugin_path: String::from_str("."),
            max_players: 100,
            enable_tournaments: true,
            enable_cosmetics: true,
        }
    }
}

} // verus!
