//! A running Hyprland instance: its name and the paths of its sockets.
//!
//! Whether a path exists on disk, and what the environment holds, is
//! found out by the caller and handed in.
use vstd::prelude::*;
use crate::error::{HyprError, HyprErrorView};
use crate::text::{chars_of, push_str, slice_of, split_all, split_char, string_of, views};

verus! {

/// The parts of a path as `Path::components` sees them, without the root:
/// the pieces between slashes, empty ones and `.` dropped.
pub open spec fn path_parts(p: Seq<char>) -> Seq<Seq<char>> {
    split_char(p, '/').filter(|x: Seq<char>| is_part(x))
}

/// Whether a piece between slashes is a part of the path.
pub open spec fn is_part(x: Seq<char>) -> bool {
    x.len() > 0 && x != "."@
}

/// `Path::file_name`: the last part, unless there is none or it is `..`.
pub open spec fn file_name(p: Seq<char>) -> Option<Seq<char>> {
    let parts = path_parts(p);
    if parts.len() == 0 || parts.last() == ".."@ {
        None
    } else {
        Some(parts.last())
    }
}

/// `Path::join` of a relative name: a slash between them unless the path
/// is empty or already ends in one.
pub open spec fn join_path(p: Seq<char>, name: Seq<char>) -> Seq<char> {
    if p.len() == 0 || p.last() == '/' {
        p + name
    } else {
        p + "/"@ + name
    }
}

/// `PathBuf::push`: an absolute name replaces the path, a relative one is
/// joined to it.
pub open spec fn push_path(p: Seq<char>, name: Seq<char>) -> Seq<char> {
    if name.len() > 0 && name[0] == '/' {
        name
    } else {
        join_path(p, name)
    }
}

/// This is the sync version of the Hyprland Instance.
/// It holds the paths of the sockets of one running Hyprland instance.
#[derive(Debug, Clone)]
pub struct Instance {
    instance: String,
    /// .socket.sock
    stream: String,
    /// .hyprpaper.sock
    hyprpaper_stream: String,
    /// .socket2.sock
    event_socket_path: String,
}

/// The model of an instance: its name and the paths of its command,
/// hyprpaper and event sockets.
pub struct InstanceView {
    pub instance: Seq<char>,
    pub stream: Seq<char>,
    pub hyprpaper_stream: Seq<char>,
    pub event_socket_path: Seq<char>,
}

impl View for Instance {
    type V = InstanceView;

    closed spec fn view(&self) -> InstanceView {
        InstanceView {
            instance: self.instance@,
            stream: self.stream@,
            hyprpaper_stream: self.hyprpaper_stream@,
            event_socket_path: self.event_socket_path@,
        }
    }
}

/// The instance a socket directory gives: its name is the directory's
/// file name, and its sockets lie in it; a path without a file name, or
/// one that does not exist, is refused.
pub open spec fn instance_of_path(path: Seq<char>, exists: bool) -> Result<InstanceView, HyprErrorView> {
    match file_name(path) {
        None => Err(HyprErrorView::Internal("Could not get instance name from path: "@ + path)),
        Some(name) => if !exists {
            Err(HyprErrorView::Internal("Hyprland instance path does not exist: "@ + path))
        } else {
            Ok(InstanceView {
                instance: name,
                stream: join_path(path, ".socket.sock"@),
                hyprpaper_stream: join_path(path, ".hyprpaper.sock"@),
                event_socket_path: join_path(path, ".socket2.sock"@),
            })
        },
    }
}

/// The model of an instance result.
pub open spec fn instance_result_view(r: Result<Instance, HyprError>) -> Result<InstanceView, HyprErrorView> {
    match r {
        Ok(i) => Ok(i@),
        Err(e) => Err(e@),
    }
}

/// What reading an environment variable gave.
#[derive(Debug, Clone, PartialEq, Eq)]
pub enum EnvValue {
    /// The variable holds this text
    Present(String),
    /// The variable is not set
    NotPresent,
    /// The variable does not hold text
    NotUnicode,
}

/// The instance name the `HYPRLAND_INSTANCE_SIGNATURE` variable gives.
pub open spec fn env_name_result(v: EnvValue) -> Result<Seq<char>, HyprErrorView> {
    match v {
        EnvValue::Present(s) => Ok(s@),
        EnvValue::NotPresent => Err(HyprErrorView::Internal("Could not get socket path! (Is Hyprland running??)"@)),
        EnvValue::NotUnicode => Err(HyprErrorView::Internal("Corrupted Hyprland socket variable: Invalid unicode!"@)),
    }
}

fn join_string(p: &str, name: &str) -> (res: String)
    ensures
        res@ == join_path(p@, name@),
{
    let v = chars_of(p);
    let mut s = String::from_str(p);
    if v.len() == 0 || v[v.len() - 1] == '/' {
        push_str(&mut s, name);
    } else {
        push_str(&mut s, "/");
        push_str(&mut s, name);
    }
    s
}

fn last_part(p: &str) -> (res: Option<String>)
    ensures
        match file_name(p@) {
            Some(n) => res matches Some(r) && r@ == n,
            None => res is None,
        },
{
    proof {
        reveal_strlit(".");
        reveal_strlit("..");
    }
    let v = chars_of(p);
    let pieces = split_all(&v, '/');
    let ghost all = views(pieces@);
    let mut last: Option<usize> = None;
    let mut i: usize = 0;
    let ghost keep = |x: Seq<char>| is_part(x);
    proof {
        reveal(Seq::filter);
    }
    assert(all.take(0).filter(keep) =~= Seq::<Seq<char>>::empty());
    while i < pieces.len()
        invariant
            i <= pieces.len(),
            all == views(pieces@),
            all == split_char(p@, '/'),
            keep == (|x: Seq<char>| is_part(x)),
            match last {
                Some(k) => k < i && all.take(i as int).filter(keep).len() > 0
                    && all.take(i as int).filter(keep).last() == all[k as int],
                None => all.take(i as int).filter(keep).len() == 0,
            },
        decreases pieces.len() - i,
    {
        assert(all[i as int] == pieces@[i as int]@);
        assert(all.take(i as int + 1).drop_last() =~= all.take(i as int));
        let piece = &pieces[i];
        let is_dot = piece.len() == 1 && piece[0] == '.';
        proof {
            reveal(Seq::filter);
            reveal_strlit(".");
            if piece@.len() == 1 && piece@[0] == '.' {
                assert(piece@ =~= "."@);
            }
        }
        let ghost t1 = all.take(i as int + 1);
        assert(t1.last() == all[i as int]);
        assert(keep(all[i as int]) == is_part(all[i as int]));
        if piece.len() > 0 && !is_dot {
            assert(t1.filter(keep) == all.take(i as int).filter(keep).push(all[i as int]));
            last = Some(i);
        } else {
            assert(t1.filter(keep) == all.take(i as int).filter(keep));
        }
        i = i + 1;
    }
    assert(all.take(pieces.len() as int) =~= all);
    match last {
        None => None,
        Some(k) => {
            let piece = &pieces[k];
            assert(all[k as int] == piece@);
            let is_up = piece.len() == 2 && piece[0] == '.' && piece[1] == '.';
            proof {
                if piece@.len() == 2 && piece@[0] == '.' && piece@[1] == '.' {
                    assert(piece@ =~= ".."@);
                }
            }
            if is_up {
                None
            } else {
                Some(string_of(piece))
            }
        },
    }
}

impl Instance {
    /// Uses the path to determine the sockets to use; `exists` tells
    /// whether the path exists.
    ///
    /// Example path: `/run/user/1000/hypr/9958d297641b5c84dcff93f9039d80a5ad37ab00_1752788564_21468021`
    pub fn from_base_socket_path(path: &str, exists: bool) -> (res: Result<Self, HyprError>)
        ensures
            instance_result_view(res) == instance_of_path(path@, exists),
    {
        let name = match last_part(path) {
            Some(n) => n,
            None => {
                let mut m = String::from_str("Could not get instance name from path: ");
                push_str(&mut m, path);
                return Err(HyprError::Internal(m));
            },
        };
        if !exists {
            let mut m = String::from_str("Hyprland instance path does not exist: ");
            push_str(&mut m, path);
            return Err(HyprError::Internal(m));
        }
        Ok(Instance {
            instance: name,
            stream: join_string(path, ".socket.sock"),
            hyprpaper_stream: join_string(path, ".hyprpaper.sock"),
            event_socket_path: join_string(path, ".socket2.sock"),
        })
    }

    /// The socket directory of the instance with this name under the
    /// directory of Hyprland's sockets.
    pub fn socket_dir(hypr_path: &str, name: &str) -> (res: String)
        ensures
            res@ == push_path(hypr_path@, name@),
    {
        let v = chars_of(name);
        if v.len() > 0 && v[0] == '/' {
            String::from_str(name)
        } else {
            join_string(hypr_path, name)
        }
    }

    /// Uses the name to determine the sockets to use: the socket
    /// directory is `socket_dir(hypr_path, name)`, and `exists` tells
    /// whether it exists.
    ///
    /// Example name: `9958d297641b5c84dcff93f9039d80a5ad37ab00_1752788564_214680212`
    pub fn from_instance(hypr_path: &str, name: &str, exists: bool) -> (res: Result<Self, HyprError>)
        ensures
            instance_result_view(res) == instance_of_path(push_path(hypr_path@, name@), exists),
    {
        let dir = Self::socket_dir(hypr_path, name);
        Self::from_base_socket_path(dir.as_str(), exists)
    }

    /// Uses the `HYPRLAND_INSTANCE_SIGNATURE` variable, as read, for the
    /// name; `exists` tells whether the socket directory exists.
    pub fn from_current_env(hypr_path: &str, signature: &EnvValue, exists: bool) -> (res: Result<Self, HyprError>)
        ensures
            instance_result_view(res) == match env_name_result(*signature) {
                Ok(name) => instance_of_path(push_path(hypr_path@, name), exists),
                Err(e) => Err(e),
            },
    {
        match signature {
            EnvValue::Present(name) => Self::from_instance(hypr_path, name.as_str(), exists),
            EnvValue::NotPresent => Err(HyprError::Internal(String::from_str("Could not get socket path! (Is Hyprland running??)"))),
            EnvValue::NotUnicode => Err(HyprError::Internal(String::from_str("Corrupted Hyprland socket variable: Invalid unicode!"))),
        }
    }

    /// The name of the instance.
    pub fn name(&self) -> (res: &str)
        ensures
            res@ == self@.instance,
    {
        self.instance.as_str()
    }

    /// The path of the command socket.
    pub fn stream_path(&self) -> (res: &str)
        ensures
            res@ == self@.stream,
    {
        self.stream.as_str()
    }

    /// The path of the hyprpaper socket.
    pub fn hyprpaper_stream_path(&self) -> (res: &str)
        ensures
            res@ == self@.hyprpaper_stream,
    {
        self.hyprpaper_stream.as_str()
    }

    /// The path of the event socket.
    pub fn event_socket_path(&self) -> (res: &str)
        ensures
            res@ == self@.event_socket_path,
    {
        self.event_socket_path.as_str()
    }

    /// Two instances are the same when their names are.
    pub fn same_as(&self, other: &Self) -> (res: bool)
        ensures
            res == (self@.instance == other@.instance),
    {
        let a = chars_of(self.instance.as_str());
        let b = chars_of(other.instance.as_str());
        crate::text::chars_eq(&a, &b)
    }
}

/// The directory Hyprland keeps its instances in: `hypr` under
/// `$XDG_RUNTIME_DIR` when that is set, else under `/run/user/$UID` when
/// `UID` holds text; with neither, an error.
pub open spec fn hypr_path_result(xdg_runtime_dir: Option<Seq<char>>, uid: Option<Seq<char>>) -> Result<Seq<char>, HyprErrorView> {
    match xdg_runtime_dir {
        Some(x) => Ok(push_path(x, "hypr"@)),
        None => match uid {
            Some(u) => Ok(push_path("/run/user/"@ + u, "hypr"@)),
            None => Err(HyprErrorView::Internal("Could not find XDG_RUNTIME_DIR or UID"@)),
        },
    }
}

/// The text of a variable, if it has one.
pub open spec fn text_of(v: Option<&str>) -> Option<Seq<char>> {
    match v {
        Some(s) => Some(s@),
        None => None,
    }
}

/// The directory Hyprland keeps its instances in, from the two variables
/// as read: `XDG_RUNTIME_DIR` if it is set, `UID` if it holds text.
pub fn get_hypr_path(xdg_runtime_dir: Option<&str>, uid: Option<&str>) -> (res: Result<String, HyprError>)
    ensures
        match hypr_path_result(text_of(xdg_runtime_dir), text_of(uid)) {
            Ok(p) => res matches Ok(r) && r@ == p,
            Err(e) => res matches Err(r) && r@ == e,
        },
{
    match xdg_runtime_dir {
        Some(x) => Ok(Instance::socket_dir(x, "hypr")),
        None => match uid {
            Some(u) => {
                let mut base = String::from_str("/run/user/");
                push_str(&mut base, u);
                proof {
                    reveal_strlit("/run/user/");
                }
                Ok(Instance::socket_dir(base.as_str(), "hypr"))
            },
            None => Err(HyprError::Internal(String::from_str("Could not find XDG_RUNTIME_DIR or UID"))),
        },
    }
}

/// Splitting at a separator splits each side of it.
proof fn lemma_split_at_slash(a: Seq<char>, b: Seq<char>)
    ensures
        split_char(a + seq!['/'] + b, '/') == split_char(a, '/') + split_char(b, '/'),
    decreases a.len(),
{
    if !crate::text::has_char(a, '/') {
        crate::text::lemma_split_char_front(a, b, '/');
        crate::text::lemma_split_char_single(a, '/');
    } else {
        crate::text::lemma_index_of(a, '/');
        let k = crate::text::index_of(a, '/');
        let (a1, a2) = (a.take(k), a.skip(k + 1));
        assert(a =~= a1 + seq!['/'] + a2);
        assert(!crate::text::has_char(a1, '/')) by {
            if crate::text::has_char(a1, '/') {
                let i = choose|i: int| 0 <= i < a1.len() && a1[i] == '/';
                assert(a[i] == '/');
            }
        }
        crate::text::lemma_split_char_front(a1, a2, '/');
        assert(a + seq!['/'] + b =~= a1 + seq!['/'] + (a2 + seq!['/'] + b));
        crate::text::lemma_split_char_front(a1, a2 + seq!['/'] + b, '/');
        lemma_split_at_slash(a2, b);
    }
}

/// A name of one part, joined to a path, is the file name of the result.
proof fn lemma_file_name_of_join(a: Seq<char>, name: Seq<char>)
    requires
        is_part(name),
        name != ".."@,
        !crate::text::has_char(name, '/'),
    ensures
        file_name(a + seq!['/'] + name) == Some(name),
{
    lemma_split_at_slash(a, name);
    crate::text::lemma_split_char_single(name, '/');
    let pred = |x: Seq<char>| is_part(x);
    Seq::filter_distributes_over_add(split_char(a, '/'), seq![name], pred);
    reveal(Seq::filter);
    assert(seq![name].filter(pred) =~= seq![name]) by {
        assert(seq![name].drop_last() =~= Seq::<Seq<char>>::empty());
    }
}

/// An instance made from a name of one path part, in a directory that
/// exists, is named by that name, whatever the directory it lies in.
pub proof fn law_instance_named_by_its_name(hypr_path: Seq<char>, name: Seq<char>)
    requires
        name.len() > 0,
        name != "."@,
        name != ".."@,
        !crate::text::has_char(name, '/'),
    ensures
        instance_of_path(push_path(hypr_path, name), true) matches Ok(i) && i.instance == name,
{
    reveal_strlit("/");
    assert(name[0] != '/');
    if hypr_path.len() == 0 {
        assert(push_path(hypr_path, name) =~= name);
        crate::text::lemma_split_char_single(name, '/');
        reveal(Seq::filter);
        assert(seq![name].drop_last() =~= Seq::<Seq<char>>::empty());
    } else if hypr_path.last() == '/' {
        let a = hypr_path.drop_last();
        assert(push_path(hypr_path, name) =~= a + seq!['/'] + name);
        lemma_file_name_of_join(a, name);
    } else {
        assert(push_path(hypr_path, name) =~= hypr_path + seq!['/'] + name);
        lemma_file_name_of_join(hypr_path, name);
    }
}

} // verus!
