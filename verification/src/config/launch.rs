//! Voiceger install layout, launch command and autostart entry, computed from what the
//! application reads of the machine (home folder, files, which programs run).
use super::{AppConfig, AppConfigView};
use crate::text::{concat_str, is_blank, is_blank_str, join_path, join_path_str, trim, trim_str};
use vstd::prelude::*;

verus! {

broadcast use vstd::std_specs::vec::group_vec_axioms;

/// For a command line, the words `shell_words::split` makes of it, or `None` when it
/// refuses it (an unclosed quote).
pub uninterp spec fn shell_split(line: Seq<char>) -> Option<Seq<Seq<char>>>;

/// For a path, what `std::path::Path::parent` returns, as text.
pub uninterp spec fn path_parent(p: Seq<char>) -> Option<Seq<char>>;

/// The words of a list of strings.
pub open spec fn words_view(v: Seq<String>) -> Seq<Seq<char>> {
    v.map_values(|s: String| s@)
}

/// Calls `shell_words::split(line)`. The contract ties the words to the name
/// `shell_split` and says no more of them.
#[verifier::external_body]
fn split_command_line(line: &str) -> (r: Option<Vec<String>>)
    ensures
        match r {
            Some(w) => shell_split(line@) == Some(words_view(w@)),
            None => shell_split(line@) is None,
        },
{
    shell_words::split(line).ok()
}

/// Calls `std::path::Path::parent` on `p` and renders the result as text. The contract
/// ties the result to the name `path_parent` and says no more of it.
#[verifier::external_body]
fn parent_of_path(p: &str) -> (r: Option<String>)
    ensures
        match r {
            Some(q) => path_parent(p@) == Some(q@),
            None => path_parent(p@) is None,
        },
{
    std::path::Path::new(p).parent().map(|q| q.to_string_lossy().to_string())
}

/// Whether a word ends with `.py`.
pub open spec fn ends_with_py(w: Seq<char>) -> bool {
    w.len() >= 3 && w.skip(w.len() - 3) == ".py"@
}

/// Whether a word holds a `/`.
pub open spec fn has_slash(w: Seq<char>) -> bool {
    w.contains('/')
}

/// The first word ending in `.py`.
pub open spec fn first_py(words: Seq<Seq<char>>) -> Option<Seq<char>>
    decreases words.len(),
{
    if words.len() == 0 {
        None
    } else if ends_with_py(words[0]) {
        Some(words[0])
    } else {
        first_py(words.drop_first())
    }
}

/// The first word holding a `/`.
pub open spec fn first_with_slash(words: Seq<Seq<char>>) -> Option<Seq<char>>
    decreases words.len(),
{
    if words.len() == 0 {
        None
    } else if has_slash(words[0]) {
        Some(words[0])
    } else {
        first_with_slash(words.drop_first())
    }
}

/// The word of a launch command taken as the script: the first word ending in `.py`,
/// else the first word holding a `/`.
pub open spec fn script_word(words: Seq<Seq<char>>) -> Option<Seq<char>> {
    match first_py(words) {
        Some(w) => Some(w),
        None => first_with_slash(words),
    }
}

/// `first_py` finds the first word ending in `.py`, when there is one.
proof fn lemma_first_py_finds(words: Seq<Seq<char>>)
    ensures
        (exists|i: int| 0 <= i < words.len() && ends_with_py(#[trigger] words[i])) ==> (first_py(
            words,
        ) matches Some(w) && exists|i: int|
            0 <= i < words.len() && words[i] == w && ends_with_py(w) && forall|j: int|
                0 <= j < i ==> !ends_with_py(#[trigger] words[j])),
        (forall|i: int| 0 <= i < words.len() ==> !ends_with_py(#[trigger] words[i])) ==> first_py(
            words,
        ) is None,
    decreases words.len(),
{
    if words.len() > 0 {
        let rest = words.drop_first();
        lemma_first_py_finds(rest);
        if !ends_with_py(words[0]) {
            if exists|i: int| 0 <= i < words.len() && ends_with_py(#[trigger] words[i]) {
                let i = choose|i: int| 0 <= i < words.len() && ends_with_py(#[trigger] words[i]);
                assert(rest[i - 1] == words[i]);
                let w = first_py(rest)->0;
                let k = choose|k: int|
                    0 <= k < rest.len() && rest[k] == w && ends_with_py(w) && forall|j: int|
                        0 <= j < k ==> !ends_with_py(#[trigger] rest[j]);
                assert(words[k + 1] == w);
                assert forall|j: int| 0 <= j < k + 1 implies !ends_with_py(#[trigger] words[j]) by {
                    if j > 0 {
                        assert(words[j] == rest[j - 1]);
                    }
                }
            }
            if forall|i: int| 0 <= i < words.len() ==> !ends_with_py(#[trigger] words[i]) {
                assert forall|i: int| 0 <= i < rest.len() implies !ends_with_py(#[trigger] rest[i]) by {
                    assert(rest[i] == words[i + 1]);
                }
            }
        }
    }
}

/// `first_with_slash` finds the first word holding a `/`, when there is one.
proof fn lemma_first_with_slash_finds(words: Seq<Seq<char>>)
    ensures
        (exists|i: int| 0 <= i < words.len() && has_slash(#[trigger] words[i])) ==> (first_with_slash(
            words,
        ) matches Some(w) && exists|i: int|
            0 <= i < words.len() && words[i] == w && has_slash(w) && forall|j: int|
                0 <= j < i ==> !has_slash(#[trigger] words[j])),
        (forall|i: int| 0 <= i < words.len() ==> !has_slash(#[trigger] words[i])) ==> first_with_slash(
            words,
        ) is None,
    decreases words.len(),
{
    if words.len() > 0 {
        let rest = words.drop_first();
        lemma_first_with_slash_finds(rest);
        if !has_slash(words[0]) {
            if exists|i: int| 0 <= i < words.len() && has_slash(#[trigger] words[i]) {
                let i = choose|i: int| 0 <= i < words.len() && has_slash(#[trigger] words[i]);
                assert(rest[i - 1] == words[i]);
                let w = first_with_slash(rest)->0;
                let k = choose|k: int|
                    0 <= k < rest.len() && rest[k] == w && has_slash(w) && forall|j: int|
                        0 <= j < k ==> !has_slash(#[trigger] rest[j]);
                assert(words[k + 1] == w);
                assert forall|j: int| 0 <= j < k + 1 implies !has_slash(#[trigger] words[j]) by {
                    if j > 0 {
                        assert(words[j] == rest[j - 1]);
                    }
                }
            }
            if forall|i: int| 0 <= i < words.len() ==> !has_slash(#[trigger] words[i]) {
                assert forall|i: int| 0 <= i < rest.len() implies !has_slash(#[trigger] rest[i]) by {
                    assert(rest[i] == words[i + 1]);
                }
            }
        }
    }
}

/// Whether a word's last three characters are `.`, `p`, `y`.
proof fn lemma_ends_with_py_chars(w: Seq<char>)
    ensures
        ends_with_py(w) <==> (w.len() >= 3 && w[w.len() - 3] == '.' && w[w.len() - 2] == 'p'
            && w[w.len() - 1] == 'y'),
{
    reveal_strlit(".py");
    if w.len() >= 3 {
        let t = w.skip(w.len() - 3);
        assert(t[0] == w[w.len() - 3] && t[1] == w[w.len() - 2] && t[2] == w[w.len() - 1]);
        if w[w.len() - 3] == '.' && w[w.len() - 2] == 'p' && w[w.len() - 1] == 'y' {
            assert(t =~= ".py"@);
        }
    }
}

/// The script of a launch command is a `.py` file whenever one is named: when some word
/// ends in the characters `.py`, the script is the first such word; otherwise, when
/// some word holds a `/`, it is the first such word; otherwise there is none.
pub proof fn lemma_script_word(words: Seq<Seq<char>>)
    ensures
        (exists|i: int|
            0 <= i < words.len() && (#[trigger] words[i]).len() >= 3 && words[i][words[i].len() - 3]
                == '.' && words[i][words[i].len() - 2] == 'p' && words[i][words[i].len() - 1] == 'y')
            ==> (script_word(words) matches Some(w) && w.len() >= 3 && w[w.len() - 3] == '.' && w[w.len()
            - 2] == 'p' && w[w.len() - 1] == 'y' && exists|i: int|
            0 <= i < words.len() && words[i] == w && forall|j: int|
                0 <= j < i ==> !((#[trigger] words[j]).len() >= 3 && words[j][words[j].len() - 3] == '.'
                    && words[j][words[j].len() - 2] == 'p' && words[j][words[j].len() - 1] == 'y')),
        (forall|i: int|
            0 <= i < words.len() ==> !((#[trigger] words[i]).len() >= 3 && words[i][words[i].len() - 3]
                == '.' && words[i][words[i].len() - 2] == 'p' && words[i][words[i].len() - 1] == 'y'))
            ==> ((exists|i: int| 0 <= i < words.len() && (#[trigger] words[i]).contains('/')) ==> (
            script_word(words) matches Some(w) && w.contains('/') && exists|i: int|
                0 <= i < words.len() && words[i] == w && forall|j: int|
                    0 <= j < i ==> !(#[trigger] words[j]).contains('/')))
            && ((forall|i: int| 0 <= i < words.len() ==> !(#[trigger] words[i]).contains('/'))
            ==> script_word(words) is None),
{
    assert forall|w: Seq<char>| #[trigger] ends_with_py(w) <==> (w.len() >= 3 && w[w.len() - 3]
        == '.' && w[w.len() - 2] == 'p' && w[w.len() - 1] == 'y') by {
        lemma_ends_with_py_chars(w);
    }
    lemma_first_py_finds(words);
    lemma_first_with_slash_finds(words);
}

/// Whether a folder is named `GPT-SoVITS`: the path is that name or ends in
/// `/GPT-SoVITS`.
pub open spec fn is_gpt_sovits_dir(p: Seq<char>) -> bool {
    p == "GPT-SoVITS"@ || (p.len() >= 11 && p.skip(p.len() - 11) == "/GPT-SoVITS"@)
}

/// The Voiceger folder a launch command points at: the folder of its script (the first
/// word ending in `.py`, else the first word holding a `/`), or the folder above it when
/// the script sits in `GPT-SoVITS/` (and there is one). So `python
/// /home/user/voiceger_v2/api.py` and `python /home/user/voiceger_v2/GPT-SoVITS/api_v2.py`
/// both point at `/home/user/voiceger_v2`. A blank command means the default install
/// folder, when it exists (`default_install_dir`).
pub open spec fn voiceger_base_dir_of(voiceger_path: Seq<char>, default_install_dir: Option<Seq<char>>) -> Option<
    Seq<char>,
> {
    if is_blank(voiceger_path) {
        default_install_dir
    } else {
        match shell_split(trim(voiceger_path)) {
            None => None,
            Some(words) => {
                match script_word(words) {
                    None => None,
                    Some(s) => match path_parent(s) {
                        None => None,
                        Some(parent) => if is_gpt_sovits_dir(parent) {
                            match path_parent(parent) {
                                Some(grand) => Some(grand),
                                None => Some(parent),
                            }
                        } else {
                            Some(parent)
                        },
                    },
                }
            },
        }
    }
}

fn is_gpt_sovits_dir_str(p: &str) -> (b: bool)
    ensures
        b == is_gpt_sovits_dir(p@),
{
    proof {
        reveal_strlit("GPT-SoVITS");
        reveal_strlit("/GPT-SoVITS");
    }
    if crate::text::str_eq(p, "GPT-SoVITS") {
        return true;
    }
    let n = p.unicode_len();
    if n < 11 {
        return false;
    }
    let tail = p.substring_char(n - 11, n);
    proof {
        assert(p@.subrange(n - 11, n as int) =~= p@.skip(n - 11));
    }
    crate::text::str_eq(tail, "/GPT-SoVITS")
}

fn ends_with_py_str(w: &str) -> (b: bool)
    ensures
        b == ends_with_py(w@),
{
    let cs = crate::text::chars_of(w);
    let n = cs.len();
    if n < 3 {
        return false;
    }
    let r = cs[n - 3] == '.' && cs[n - 2] == 'p' && cs[n - 1] == 'y';
    proof {
        reveal_strlit(".py");
        if r {
            assert(w@.skip(n - 3) =~= ".py"@);
        } else if w@.skip(n - 3) == ".py"@ {
            assert(w@.skip(n - 3)[0] == w@[n - 3]);
            assert(w@.skip(n - 3)[1] == w@[n - 2]);
            assert(w@.skip(n - 3)[2] == w@[n - 1]);
        }
    }
    r
}

fn has_slash_str(w: &str) -> (b: bool)
    ensures
        b == has_slash(w@),
{
    let cs = crate::text::chars_of(w);
    let mut i: usize = 0;
    while i < cs.len()
        invariant
            cs@ == w@,
            i <= cs@.len(),
            forall|j: int| 0 <= j < i ==> cs@[j] != '/',
        decreases cs@.len() - i,
    {
        if cs[i] == '/' {
            return true;
        }
        i = i + 1;
    }
    false
}

proof fn lemma_first_py_skip(words: Seq<Seq<char>>, i: int)
    requires
        0 <= i <= words.len(),
        forall|j: int| 0 <= j < i ==> !ends_with_py(#[trigger] words[j]),
    ensures
        first_py(words) == first_py(words.skip(i)),
    decreases i,
{
    if i > 0 {
        assert forall|j: int| 0 <= j < i - 1 implies !ends_with_py(#[trigger] words.drop_first()[j]) by {
            assert(words.drop_first()[j] == words[j + 1]);
        }
        lemma_first_py_skip(words.drop_first(), i - 1);
        assert(words.drop_first().skip(i - 1) =~= words.skip(i));
    } else {
        assert(words.skip(0) =~= words);
    }
}

proof fn lemma_first_slash_skip(words: Seq<Seq<char>>, i: int)
    requires
        0 <= i <= words.len(),
        forall|j: int| 0 <= j < i ==> !has_slash(#[trigger] words[j]),
    ensures
        first_with_slash(words) == first_with_slash(words.skip(i)),
    decreases i,
{
    if i > 0 {
        assert forall|j: int| 0 <= j < i - 1 implies !has_slash(#[trigger] words.drop_first()[j]) by {
            assert(words.drop_first()[j] == words[j + 1]);
        }
        lemma_first_slash_skip(words.drop_first(), i - 1);
        assert(words.drop_first().skip(i - 1) =~= words.skip(i));
    } else {
        assert(words.skip(0) =~= words);
    }
}

/// The script word of a launch command (see `voiceger_base_dir_of`).
fn find_script(words: &Vec<String>) -> (r: Option<&String>)
    ensures
        match r {
            Some(w) => Some(w@) == (match first_py(words_view(words@)) {
                Some(x) => Some(x),
                None => first_with_slash(words_view(words@)),
            }),
            None => first_py(words_view(words@)) is None && first_with_slash(words_view(words@)) is None,
        },
{
    let ghost wv = words_view(words@);
    let mut i: usize = 0;
    while i < words.len()
        invariant
            wv == words_view(words@),
            wv.len() == words@.len(),
            i <= words@.len(),
            forall|j: int| 0 <= j < i ==> !ends_with_py(#[trigger] wv[j]),
        decreases words@.len() - i,
    {
        if ends_with_py_str(words[i].as_str()) {
            proof {
                lemma_first_py_skip(wv, i as int);
            }
            return Some(&words[i]);
        }
        i = i + 1;
    }
    proof {
        lemma_first_py_skip(wv, i as int);
    }
    let mut k: usize = 0;
    while k < words.len()
        invariant
            wv == words_view(words@),
            wv.len() == words@.len(),
            first_py(wv) is None,
            k <= words@.len(),
            forall|j: int| 0 <= j < k ==> !has_slash(#[trigger] wv[j]),
        decreases words@.len() - k,
    {
        if has_slash_str(words[k].as_str()) {
            proof {
                lemma_first_slash_skip(wv, k as int);
            }
            return Some(&words[k]);
        }
        k = k + 1;
    }
    proof {
        lemma_first_slash_skip(wv, k as int);
    }
    None
}

/// The Voiceger folder for a launch command (see `voiceger_base_dir_of`).
pub fn voiceger_base_dir_for(voiceger_path: &str, default_install_dir: Option<String>) -> (r: Option<String>)
    ensures
        crate::validation::opt_view(r) == voiceger_base_dir_of(
            voiceger_path@,
            crate::validation::opt_view(default_install_dir),
        ),
{
    if is_blank_str(voiceger_path) {
        return default_install_dir;
    }
    let words = match split_command_line(trim_str(voiceger_path)) {
        Some(w) => w,
        None => {
            return None;
        },
    };
    let script = match find_script(&words) {
        Some(s) => s,
        None => {
            return None;
        },
    };
    let parent = match parent_of_path(script.as_str()) {
        Some(p) => p,
        None => {
            return None;
        },
    };
    if !is_gpt_sovits_dir_str(parent.as_str()) {
        return Some(parent);
    }
    match parent_of_path(parent.as_str()) {
        Some(g) => Some(g),
        None => Some(parent),
    }
}

/// The default Voiceger install folder: `voiceger_v2` in the home folder, or in the
/// current folder when the home folder is unknown.
pub open spec fn default_voiceger_install_dir(home: Option<Seq<char>>) -> Seq<char> {
    join_path(
        match home {
            Some(h) => h,
            None => "."@,
        },
        "voiceger_v2"@,
    )
}

/// The default Voiceger install folder for a home folder.
pub fn voiceger_install_dir_for(home: Option<&str>) -> (r: String)
    ensures
        r@ == default_voiceger_install_dir(
            match home {
                Some(h) => Some(h@),
                None => None,
            },
        ),
{
    match home {
        Some(h) => join_path_str(h, "voiceger_v2"),
        None => join_path_str(".", "voiceger_v2"),
    }
}

/// The Voiceger API script of an install folder: `GPT-SoVITS/api_v2.py` in it.
pub open spec fn voiceger_api_script(install_dir: Seq<char>) -> Seq<char> {
    join_path(join_path(install_dir, "GPT-SoVITS"@), "api_v2.py"@)
}

/// The Voiceger API script of an install folder.
pub fn voiceger_api_script_for(install_dir: &str) -> (r: String)
    ensures
        r@ == voiceger_api_script(install_dir@),
{
    let d = join_path_str(install_dir, "GPT-SoVITS");
    join_path_str(d.as_str(), "api_v2.py")
}

/// The conda programs tried in turn: `conda` on the search path, then the Miniconda and
/// Anaconda installs in the home folder.
pub open spec fn conda_candidates(home: Seq<char>) -> Seq<Seq<char>> {
    seq!["conda"@, home + "/miniconda3/bin/conda"@, home + "/anaconda3/bin/conda"@]
}

/// The conda programs tried in turn for a home folder (empty when unknown).
pub fn conda_candidates_for(home: &str) -> (r: Vec<String>)
    ensures
        words_view(r@) == conda_candidates(home@),
{
    let mut r: Vec<String> = Vec::new();
    r.push("conda".to_owned());
    r.push(concat_str(home, "/miniconda3/bin/conda"));
    r.push(concat_str(home, "/anaconda3/bin/conda"));
    proof {
        assert(words_view(r@) =~= conda_candidates(home@));
    }
    r
}

/// The Voiceger launch command: through `<conda> run -n voiceger` when a conda program
/// runs, else with plain `python`.
pub open spec fn voiceger_launch_cmd(conda: Option<Seq<char>>, api_script: Seq<char>) -> Seq<char> {
    match conda {
        Some(c) => c + " run -n voiceger --no-capture-output python "@ + api_script,
        None => "python "@ + api_script,
    }
}

/// The Voiceger launch command for the first conda program that runs, if any.
pub fn voiceger_launch_cmd_for(conda: Option<&str>, api_script: &str) -> (r: String)
    ensures
        r@ == voiceger_launch_cmd(
            match conda {
                Some(c) => Some(c@),
                None => None,
            },
            api_script@,
        ),
{
    match conda {
        Some(c) => {
            let head = concat_str(c, " run -n voiceger --no-capture-output python ");
            head.concat(api_script)
        },
        None => concat_str("python ", api_script),
    }
}

/// The default reference audio of a Voiceger folder:
/// `reference/01_ref_emoNormal026.wav` in it, or empty when there is no folder.
pub open spec fn default_ref_audio(base_dir: Option<Seq<char>>) -> Seq<char> {
    match base_dir {
        Some(d) => join_path(join_path(d, "reference"@), "01_ref_emoNormal026.wav"@),
        None => Seq::empty(),
    }
}

/// The reference text file of a Voiceger folder: `reference/ref_text.txt` in it.
pub open spec fn ref_text_path(base_dir: Seq<char>) -> Seq<char> {
    join_path(join_path(base_dir, "reference"@), "ref_text.txt"@)
}

/// The reference text file of a Voiceger folder.
pub fn ref_text_path_for(base_dir: &str) -> (r: String)
    ensures
        r@ == ref_text_path(base_dir@),
{
    let d = join_path_str(base_dir, "reference");
    join_path_str(d.as_str(), "ref_text.txt")
}

/// The utterance of every `_026.wav` reference file.
pub open spec fn builtin_prompt_text() -> Seq<char> {
    "私はいつもミネラルウォーターを持ち歩いています"@
}

/// The default prompt text: the trimmed reference text file when it could be read and
/// is not blank, else the utterance of the bundled reference files.
pub open spec fn default_prompt_text(ref_text_file: Option<Seq<char>>) -> Seq<char> {
    match ref_text_file {
        Some(t) => if trim(t).len() > 0 {
            trim(t)
        } else {
            builtin_prompt_text()
        },
        None => builtin_prompt_text(),
    }
}

/// The default prompt text for the contents of the reference text file, if read.
pub fn default_prompt_text_for(ref_text_file: Option<&str>) -> (r: String)
    ensures
        r@ == default_prompt_text(
            match ref_text_file {
                Some(t) => Some(t@),
                None => None,
            },
        ),
{
    if let Some(t) = ref_text_file {
        let trimmed = trim_str(t);
        if !trimmed.is_empty() {
            return trimmed.to_owned();
        }
    }
    "私はいつもミネラルウォーターを持ち歩いています".to_owned()
}

/// The autostart entry's path in a home folder.
pub open spec fn autostart_desktop_path(home: Seq<char>) -> Seq<char> {
    join_path(home, ".config/autostart/zundux_tts.desktop"@)
}

/// The autostart entry's path for a home folder.
pub fn autostart_desktop_path_for(home: &str) -> (r: String)
    ensures
        r@ == autostart_desktop_path(home@),
{
    join_path_str(home, ".config/autostart/zundux_tts.desktop")
}

/// The autostart desktop entry that runs the program at `exe_path`.
pub open spec fn autostart_desktop_entry(exe_path: Seq<char>) -> Seq<char> {
    "[Desktop Entry]\nType=Application\nName=ZunduxTTS\nComment=VOICEVOX TTS virtual microphone\nExec="@
        + exe_path + "\nTerminal=false\nX-GNOME-Autostart-enabled=true\n"@
}

/// The autostart desktop entry for a program path.
pub fn autostart_desktop_entry_for(exe_path: &str) -> (r: String)
    ensures
        r@ == autostart_desktop_entry(exe_path@),
{
    let head = concat_str(
        "[Desktop Entry]\nType=Application\nName=ZunduxTTS\nComment=VOICEVOX TTS virtual microphone\nExec=",
        exe_path,
    );
    head.concat("\nTerminal=false\nX-GNOME-Autostart-enabled=true\n")
}

impl AppConfig {
    /// The launch command in use: the configured one, or `default_launch_cmd` when the
    /// configured one is blank.
    pub fn effective_voiceger_launch_cmd(&self, default_launch_cmd: &str) -> (r: String)
        ensures
            r@ == (if is_blank(self.voiceger_path@) {
                default_launch_cmd@
            } else {
                self.voiceger_path@
            }),
    {
        if is_blank_str(self.voiceger_path.as_str()) {
            default_launch_cmd.to_owned()
        } else {
            self.voiceger_path.clone()
        }
    }

    /// The Voiceger folder of the configured launch command (see `voiceger_base_dir_of`);
    /// `default_install_dir` is the default install folder when it exists.
    pub fn voiceger_base_dir(&self, default_install_dir: Option<String>) -> (r: Option<String>)
        ensures
            crate::validation::opt_view(r) == voiceger_base_dir_of(
                self.voiceger_path@,
                crate::validation::opt_view(default_install_dir),
            ),
    {
        voiceger_base_dir_for(self.voiceger_path.as_str(), default_install_dir)
    }

    /// The default reference audio of the configured Voiceger folder.
    pub fn default_voiceger_ref_audio(&self, default_install_dir: Option<String>) -> (r: String)
        ensures
            r@ == default_ref_audio(
                voiceger_base_dir_of(self.voiceger_path@, crate::validation::opt_view(default_install_dir)),
            ),
    {
        match self.voiceger_base_dir(default_install_dir) {
            Some(d) => {
                let r = join_path_str(d.as_str(), "reference");
                join_path_str(r.as_str(), "01_ref_emoNormal026.wav")
            },
            None => String::new(),
        }
    }

    /// Resets the Voiceger reference audio, prompt text and prompt language to their
    /// defaults; `default_install_dir` is the default install folder when it exists and
    /// `ref_text_file` the contents of the folder's reference text file, when read.
    pub fn reset_voiceger_defaults(&mut self, default_install_dir: Option<String>, ref_text_file: Option<String>)
        ensures
            final(self)@ == (AppConfigView {
                voiceger_ref_audio: default_ref_audio(
                    voiceger_base_dir_of(old(self)@.voiceger_path, crate::validation::opt_view(default_install_dir)),
                ),
                voiceger_prompt_text: default_prompt_text(crate::validation::opt_view(ref_text_file)),
                voiceger_prompt_lang: "ja"@,
                ..old(self)@
            }),
    {
        self.voiceger_ref_audio = self.default_voiceger_ref_audio(default_install_dir);
        self.voiceger_prompt_text = match &ref_text_file {
            Some(t) => default_prompt_text_for(Some(t.as_str())),
            None => default_prompt_text_for(None),
        };
        self.voiceger_prompt_lang = "ja".to_owned();
    }
}

} // verus!
