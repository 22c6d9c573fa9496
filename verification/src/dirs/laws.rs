//! What holds of the directories of every session.

use crate::dirs::base::base_dirs_spec;
use crate::dirs::user::user_dirs_spec;
use crate::path::FilePathView;
use crate::utils::factory::linux::{
    lemma_placements_are_absolute, lines_of, parse_xdg_dirs_spec, placed, XdgCategory,
};
use crate::utils::home_spec;
use crate::utils::platform::Environment;
use vstd::prelude::*;

verus! {

/// Whether a path that may be absent is absolute where it is present.
pub open spec fn absolute(path: Option<FilePathView>) -> bool {
    path is Some ==> path->Some_0.is_absolute()
}

/// The home directory of a session is an absolute path.
pub proof fn lemma_home_is_absolute(env: Environment)
    requires
        home_spec(env) is Ok,
    ensures
        home_spec(env)->Ok_0.is_absolute(),
{
}

/// Every base directory of a session is an absolute path.
pub proof fn lemma_base_dirs_are_absolute(env: Environment)
    requires
        base_dirs_spec(env) is Ok,
    ensures
        base_dirs_spec(env)->Ok_0.home_dir.is_absolute(),
        base_dirs_spec(env)->Ok_0.cache_dir.is_absolute(),
        base_dirs_spec(env)->Ok_0.config_dir.is_absolute(),
        base_dirs_spec(env)->Ok_0.config_local_dir.is_absolute(),
        base_dirs_spec(env)->Ok_0.data_dir.is_absolute(),
        base_dirs_spec(env)->Ok_0.data_local_dir.is_absolute(),
        base_dirs_spec(env)->Ok_0.preference_dir.is_absolute(),
        absolute(base_dirs_spec(env)->Ok_0.executable_dir),
        absolute(base_dirs_spec(env)->Ok_0.runtime_dir),
        absolute(base_dirs_spec(env)->Ok_0.state_dir),
{
}

/// Every user directory of a session is an absolute path.
pub proof fn lemma_user_dirs_are_absolute(env: Environment)
    requires
        user_dirs_spec(env) is Ok,
    ensures
        user_dirs_spec(env)->Ok_0.home_dir.is_absolute(),
        absolute(user_dirs_spec(env)->Ok_0.audio_dir),
        absolute(user_dirs_spec(env)->Ok_0.desktop_dir),
        absolute(user_dirs_spec(env)->Ok_0.document_dir),
        absolute(user_dirs_spec(env)->Ok_0.download_dir),
        absolute(user_dirs_spec(env)->Ok_0.font_dir),
        absolute(user_dirs_spec(env)->Ok_0.picture_dir),
        absolute(user_dirs_spec(env)->Ok_0.public_dir),
        absolute(user_dirs_spec(env)->Ok_0.template_dir),
        absolute(user_dirs_spec(env)->Ok_0.video_dir),
{
    let home = home_spec(env)->Ok_0;
    match env {
        Environment::Linux(linux) => {
            let bytes = linux.user_dirs_file->Ok_0;
            lemma_placements_are_absolute(lines_of(bytes@), home);
            let entries = parse_xdg_dirs_spec(bytes@, home);
            assert(absolute(placed(entries, XdgCategory::Music)));
            assert(absolute(placed(entries, XdgCategory::Desktop)));
            assert(absolute(placed(entries, XdgCategory::Documents)));
            assert(absolute(placed(entries, XdgCategory::Download)));
            assert(absolute(placed(entries, XdgCategory::Pictures)));
            assert(absolute(placed(entries, XdgCategory::PublicShare)));
            assert(absolute(placed(entries, XdgCategory::Templates)));
            assert(absolute(placed(entries, XdgCategory::Videos)));
        },
        Environment::MacOs(_) => {},
        Environment::Windows(windows) => {
            crate::utils::factory::windows::lemma_first_failure(windows.folders);
        },
    }
}

} // verus!
