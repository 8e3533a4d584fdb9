//! The files of a torrent as a tree of directories.

use vstd::prelude::*;
use vstd::string::*;
use crate::components::TreeCommand;
use crate::data::{files_view, Files, FilesView, Torrent};
use crate::text::{
    bool_string, bool_text, lemma_split_is_not_empty, pad_left, padded_left, split, split_on, texts,
};

verus! {

/// A node of the file tree.
#[derive(Debug)]
pub enum Node {
    /// A file, named by the last segment of its path.
    File(Files),
    /// A directory with its name and what it holds, in the order of first appearance.
    Directory(String, Vec<Node>),
}

/// What a [`Node`] holds.
pub enum Tree {
    File(FilesView),
    Directory(Seq<char>, Seq<Tree>),
}

/// What a node holds: a file's record, or a directory's name and what its children hold.
pub open spec fn tree_of(node: Node) -> Tree
    decreases node,
{
    match node {
        Node::File(file) => Tree::File(file@),
        Node::Directory(name, children) => Tree::Directory(
            name@,
            Seq::new(
                children@.len(),
                |i: int|
                    if 0 <= i < children@.len() {
                        tree_of(children@[i])
                    } else {
                        arbitrary()
                    },
            ),
        ),
    }
}

impl View for Node {
    type V = Tree;

    open spec fn view(&self) -> Tree {
        tree_of(*self)
    }
}

/// The views of a sequence of nodes.
pub open spec fn forest_view(nodes: Seq<Node>) -> Seq<Tree> {
    Seq::new(nodes.len(), |i: int| nodes[i]@)
}

/// Whether a tree is a directory of the given name.
pub open spec fn is_directory_named(tree: Tree, name: Seq<char>) -> bool {
    tree matches Tree::Directory(n, _) && n == name
}

/// Index of the first directory of the given name among siblings, or their number if there
/// is none.
pub open spec fn directory_index(forest: Seq<Tree>, name: Seq<char>) -> int
    decreases forest.len(),
{
    if forest.len() == 0 {
        0
    } else {
        let before = directory_index(forest.drop_last(), name);
        if before < forest.len() - 1 {
            before
        } else if is_directory_named(forest.last(), name) {
            forest.len() - 1
        } else {
            forest.len() as int
        }
    }
}

/// The children of a directory.
pub open spec fn children_of(tree: Tree) -> Seq<Tree> {
    match tree {
        Tree::Directory(_, children) => children,
        Tree::File(_) => Seq::empty(),
    }
}

/// The forest after a file has been put at the end of the given path.
///
/// Each segment but the last names a directory: the first sibling directory of that name is
/// entered, or a new one is added after its siblings. The last segment adds the file after
/// its siblings, whatever they are.
pub open spec fn insert_path(
    forest: Seq<Tree>,
    segments: Seq<Seq<char>>,
    file: FilesView,
) -> Seq<Tree>
    decreases segments.len(),
{
    if segments.len() == 0 {
        forest
    } else if segments.len() == 1 {
        forest.push(Tree::File(file))
    } else {
        let at = directory_index(forest, segments[0]);
        let rest = segments.drop_first();
        if at < forest.len() {
            forest.update(
                at,
                Tree::Directory(segments[0], insert_path(children_of(forest[at]), rest, file)),
            )
        } else {
            forest.push(Tree::Directory(segments[0], insert_path(Seq::empty(), rest, file)))
        }
    }
}

/// Finds the first directory of the given name among siblings.
fn find_directory(children: &Vec<Node>, name: &String) -> (at: usize)
    ensures
        at == directory_index(forest_view(children@), name@),
        at <= children.len(),
{
    let ghost forest = forest_view(children@);
    let mut i: usize = 0;
    while i < children.len()
        invariant
            i <= children.len(),
            forest == forest_view(children@),
            directory_index(forest.take(i as int), name@) == i,
        decreases children.len() - i,
    {
        let found = match &children[i] {
            Node::Directory(label, _) => *label == *name,
            Node::File(_) => false,
        };
        proof {
            let next = forest.take(i + 1);
            assert(next.drop_last() =~= forest.take(i as int));
            assert(next.last() == children[i as int]@);
            assert(found == is_directory_named(next.last(), name@));
        }
        if found {
            proof {
                lemma_directory_index_of_prefix(forest, name@, i + 1);
            }
            return i;
        }
        i += 1;
    }
    assert(forest.take(i as int) =~= forest);
    i
}

/// A directory found among the first siblings is the one found among all of them.
proof fn lemma_directory_index_of_prefix(forest: Seq<Tree>, name: Seq<char>, n: int)
    requires
        0 <= n <= forest.len(),
        directory_index(forest.take(n), name) < n,
    ensures
        directory_index(forest, name) == directory_index(forest.take(n), name),
    decreases forest.len() - n,
{
    if n < forest.len() {
        let next = forest.take(n + 1);
        assert(next.drop_last() =~= forest.take(n));
        lemma_directory_index_of_prefix(forest, name, n + 1);
    } else {
        assert(forest.take(n) =~= forest);
    }
}

/// Puts a file at the end of a path below the given siblings.
pub fn insert_into_tree(children: &mut Vec<Node>, parts: &[String], data: Files)
    ensures
        forest_view(final(children)@) == insert_path(
            forest_view(old(children)@),
            texts(parts@),
            data@,
        ),
    decreases parts.len(),
{
    let ghost before = forest_view(children@);
    let ghost segments = texts(parts@);
    if parts.len() == 0 {
        return ;
    }
    if parts.len() == 1 {
        children.push(Node::File(data));
        assert(forest_view(children@) =~= before.push(Tree::File(data@)));
        return ;
    }
    let at = find_directory(children, &parts[0]);
    let rest = vstd::slice::slice_subrange(parts, 1, parts.len());
    assert(texts(rest@) =~= segments.drop_first());
    if at < children.len() {
        let ghost entered = children@[at as int];
        proof {
            lemma_directory_index_names_directory(before, segments[0], at as int);
            lemma_view_of_directory(entered);
        }
        match &mut children[at] {
            Node::Directory(_, inner) => {
                insert_into_tree(inner, rest, data);
            },
            Node::File(_) => {},
        }
        proof {
            let left = children@[at as int];
            lemma_view_of_directory(left);
            assert(left@ == Tree::Directory(
                segments[0],
                insert_path(children_of(before[at as int]), segments.drop_first(), data@),
            ));
            assert(forest_view(children@) =~= before.update(at as int, left@));
        }
    } else {
        children.push(Node::Directory(parts[0].clone(), Vec::new()));
        let last = children.len() - 1;
        proof {
            lemma_view_of_directory(children@[last as int]);
            assert(forest_view(children@[last as int]->Directory_1@) =~= Seq::<Tree>::empty());
        }
        match &mut children[last] {
            Node::Directory(_, inner) => {
                insert_into_tree(inner, rest, data);
            },
            Node::File(_) => {},
        }
        proof {
            let added = children@[last as int];
            lemma_view_of_directory(added);
            assert(forest_view(children@) =~= before.push(added@));
        }
    }
}

/// The view of a directory is made of its name and the views of its children.
pub proof fn lemma_view_of_directory(node: Node)
    requires
        node is Directory,
    ensures
        node@ == Tree::Directory(node->Directory_0@, forest_view(node->Directory_1@)),
{
    assert(children_of(node@) =~= forest_view(node->Directory_1@));
}

/// What `directory_index` finds is a directory of the given name, and the first one.
pub proof fn lemma_directory_index_names_directory(forest: Seq<Tree>, name: Seq<char>, at: int)
    requires
        at == directory_index(forest, name),
    ensures
        0 <= at <= forest.len(),
        at < forest.len() ==> is_directory_named(forest[at], name),
        forall|k: int| 0 <= k < at ==> !is_directory_named(#[trigger] forest[k], name),
    decreases forest.len(),
{
    if forest.len() > 0 {
        let front = forest.drop_last();
        lemma_directory_index_names_directory(front, name, directory_index(front, name));
        assert(forall|k: int| 0 <= k < front.len() ==> front[k] == forest[k]);
    }
}

/// The segments of a path: the pieces between its `/` separators, empty ones included.
pub open spec fn split_path(path: Seq<char>) -> Seq<Seq<char>> {
    split(path, '/')
}

/// Splits a path into its segments.
pub fn path_segments(path: &str) -> (segments: Vec<String>)
    ensures
        texts(segments@) == split_path(path@),
        segments.len() >= 1,
{
    split_on(path, '/')
}

/// The record of a file as its leaf carries it: named by the last segment of the path.
pub open spec fn leaf_of(file: FilesView) -> FilesView {
    FilesView { name: split_path(file.name).last(), ..file }
}

/// The forest of a list of files: each file in turn is put at the end of its path.
pub open spec fn build_forest(files: Seq<FilesView>) -> Seq<Tree>
    decreases files.len(),
{
    if files.len() == 0 {
        Seq::empty()
    } else {
        insert_path(
            build_forest(files.drop_last()),
            split_path(files.last().name),
            leaf_of(files.last()),
        )
    }
}

/// Builds the tree of directories and files from the files of a torrent.
pub fn parse_node(files: &Vec<Files>) -> (nodes: Vec<Node>)
    ensures
        forest_view(nodes@) == build_forest(files_view(files@)),
{
    let mut nodes: Vec<Node> = Vec::new();
    let mut i: usize = 0;
    assert(files_view(files@).take(0) =~= Seq::<FilesView>::empty());
    assert(forest_view(nodes@) =~= Seq::<Tree>::empty());
    while i < files.len()
        invariant
            i <= files.len(),
            forest_view(nodes@) == build_forest(files_view(files@).take(i as int)),
        decreases files.len() - i,
    {
        let file = &files[i];
        let parts = path_segments(file.name.as_str());
        let data = Files {
            name: parts[parts.len() - 1].clone(),
            downloaded: file.downloaded.clone(),
            total_size: file.total_size.clone(),
            priority: file.priority.clone(),
            wanted: file.wanted,
        };
        proof {
            let next = files_view(files@).take(i + 1);
            assert(next.drop_last() =~= files_view(files@).take(i as int));
            assert(next.last() == file@);
            assert(data@ == leaf_of(file@));
        }
        insert_into_tree(&mut nodes, parts.as_slice(), data);
        i += 1;
    }
    assert(files_view(files@).take(i as int) =~= files_view(files@));
    nodes
}

/// Whether no two sibling directories share a name, here and at every level below.
pub open spec fn unique_directories(forest: Seq<Tree>) -> bool
    decreases forest,
{
    &&& forall|i: int, j: int|
        0 <= i < j < forest.len() && forest[i] is Directory && forest[j] is Directory
            ==> forest[i]->Directory_0 != forest[j]->Directory_0
    &&& forall|i: int|
        0 <= i < forest.len() && forest[i] is Directory ==> unique_directories(
            #[trigger] children_of(forest[i]),
        )
}

/// Whether the later forest keeps every node of the earlier one in its place: files as they
/// were, directories under their names with their children kept in the same way.
pub open spec fn extends(earlier: Seq<Tree>, later: Seq<Tree>) -> bool
    decreases earlier,
{
    &&& earlier.len() <= later.len()
    &&& forall|i: int|
        0 <= i < earlier.len() ==> match #[trigger] earlier[i] {
            Tree::File(_) => later[i] == earlier[i],
            Tree::Directory(name, children) => is_directory_named(later[i], name) && extends(
                children,
                children_of(later[i]),
            ),
        }
}

/// Whether the path leads through directories of the forest to the given file.
pub open spec fn holds_file(forest: Seq<Tree>, segments: Seq<Seq<char>>, file: FilesView) -> bool
    decreases segments.len(),
{
    if segments.len() == 0 {
        false
    } else if segments.len() == 1 {
        exists|i: int| 0 <= i < forest.len() && #[trigger] forest[i] == Tree::File(file)
    } else {
        exists|i: int|
            0 <= i < forest.len() && is_directory_named(#[trigger] forest[i], segments[0])
                && holds_file(children_of(forest[i]), segments.drop_first(), file)
    }
}

/// Number of files in a forest, at any depth.
pub open spec fn file_count(forest: Seq<Tree>) -> nat
    decreases forest,
{
    if forest.len() == 0 {
        0
    } else {
        file_count(forest.drop_last()) + match forest.last() {
            Tree::File(_) => 1nat,
            Tree::Directory(_, children) => file_count(children),
        }
    }
}

/// Every forest extends itself.
pub proof fn lemma_extends_itself(forest: Seq<Tree>)
    ensures
        extends(forest, forest),
    decreases forest,
{
    assert forall|i: int| 0 <= i < forest.len() implies match #[trigger] forest[i] {
        Tree::File(_) => forest[i] == forest[i],
        Tree::Directory(name, children) => is_directory_named(forest[i], name) && extends(
            children,
            children_of(forest[i]),
        ),
    } by {
        match forest[i] {
            Tree::File(_) => {},
            Tree::Directory(_, children) => {
                lemma_extends_itself(children);
            },
        }
    }
}

/// Putting a file into a forest moves nothing that was there: siblings are only added after
/// the existing ones, at every level.
pub proof fn insert_keeps_first_seen_order(
    forest: Seq<Tree>,
    segments: Seq<Seq<char>>,
    file: FilesView,
)
    ensures
        extends(forest, insert_path(forest, segments, file)),
    decreases segments.len(),
{
    let after = insert_path(forest, segments, file);
    lemma_extends_itself(forest);
    if segments.len() >= 2 {
        let at = directory_index(forest, segments[0]);
        lemma_directory_index_names_directory(forest, segments[0], at);
        if at < forest.len() {
            insert_keeps_first_seen_order(children_of(forest[at]), segments.drop_first(), file);
        }
    }
    assert forall|i: int| 0 <= i < forest.len() implies match #[trigger] forest[i] {
        Tree::File(_) => after[i] == forest[i],
        Tree::Directory(name, children) => is_directory_named(after[i], name) && extends(
            children,
            children_of(after[i]),
        ),
    } by {
        match forest[i] {
            Tree::File(_) => {},
            Tree::Directory(_, children) => {
                lemma_extends_itself(children);
            },
        }
    }
}

/// Putting a file into a forest whose sibling directories have distinct names leaves them
/// distinct.
pub proof fn insert_keeps_directories_unique(
    forest: Seq<Tree>,
    segments: Seq<Seq<char>>,
    file: FilesView,
)
    requires
        unique_directories(forest),
    ensures
        unique_directories(insert_path(forest, segments, file)),
    decreases segments.len(),
{
    let after = insert_path(forest, segments, file);
    if segments.len() == 1 {
        assert forall|i: int|
            0 <= i < after.len() && after[i] is Directory implies unique_directories(
            #[trigger] children_of(after[i]),
        ) by {
            assert(after[i] == forest[i]);
        }
    } else if segments.len() >= 2 {
        let at = directory_index(forest, segments[0]);
        let rest = segments.drop_first();
        lemma_directory_index_names_directory(forest, segments[0], at);
        if at < forest.len() {
            insert_keeps_directories_unique(children_of(forest[at]), rest, file);
            assert forall|i: int|
                0 <= i < after.len() && after[i] is Directory implies unique_directories(
                #[trigger] children_of(after[i]),
            ) by {
                if i != at {
                    assert(after[i] == forest[i]);
                }
            }
        } else {
            assert(unique_directories(Seq::<Tree>::empty()));
            insert_keeps_directories_unique(Seq::empty(), rest, file);
            assert forall|i: int|
                0 <= i < after.len() && after[i] is Directory implies unique_directories(
                #[trigger] children_of(after[i]),
            ) by {
                if i < forest.len() {
                    assert(after[i] == forest[i]);
                }
            }
            assert forall|i: int, j: int|
                0 <= i < j < after.len() && after[i] is Directory && after[j] is Directory
                implies after[i]->Directory_0 != after[j]->Directory_0 by {
                if j == forest.len() {
                    assert(!is_directory_named(forest[i], segments[0]));
                }
            }
        }
    }
}

/// In the forest built from a list of files no two sibling directories share a name.
pub proof fn built_forest_has_unique_directories(files: Seq<FilesView>)
    ensures
        unique_directories(build_forest(files)),
    decreases files.len(),
{
    if files.len() > 0 {
        built_forest_has_unique_directories(files.drop_last());
        insert_keeps_directories_unique(
            build_forest(files.drop_last()),
            split_path(files.last().name),
            leaf_of(files.last()),
        );
    }
}

/// A file put into a forest is found at the end of its path.
pub proof fn insert_holds_file(forest: Seq<Tree>, segments: Seq<Seq<char>>, file: FilesView)
    requires
        segments.len() >= 1,
    ensures
        holds_file(insert_path(forest, segments, file), segments, file),
    decreases segments.len(),
{
    let after = insert_path(forest, segments, file);
    if segments.len() == 1 {
        assert(after[forest.len() as int] == Tree::File(file));
    } else {
        let at = directory_index(forest, segments[0]);
        let rest = segments.drop_first();
        lemma_directory_index_names_directory(forest, segments[0], at);
        if at < forest.len() {
            insert_holds_file(children_of(forest[at]), rest, file);
        } else {
            insert_holds_file(Seq::empty(), rest, file);
        }
        assert(is_directory_named(after[at], segments[0]));
        assert(holds_file(children_of(after[at]), rest, file));
    }
}

/// What a forest holds, every forest that extends it holds at the same path.
pub proof fn extension_holds_file(
    earlier: Seq<Tree>,
    later: Seq<Tree>,
    segments: Seq<Seq<char>>,
    file: FilesView,
)
    requires
        extends(earlier, later),
        holds_file(earlier, segments, file),
    ensures
        holds_file(later, segments, file),
    decreases segments.len(),
{
    if segments.len() == 1 {
        let i = choose|i: int| 0 <= i < earlier.len() && #[trigger] earlier[i] == Tree::File(file);
        assert(later[i] == Tree::File(file));
    } else {
        let i = choose|i: int|
            0 <= i < earlier.len() && is_directory_named(#[trigger] earlier[i], segments[0])
                && holds_file(children_of(earlier[i]), segments.drop_first(), file);
        extension_holds_file(
            children_of(earlier[i]),
            children_of(later[i]),
            segments.drop_first(),
            file,
        );
        assert(is_directory_named(later[i], segments[0]));
    }
}

/// The forest built from a list of files holds each of them at the end of its path, under
/// the name of the path's last segment.
pub proof fn built_forest_holds_every_file(files: Seq<FilesView>, k: int)
    requires
        0 <= k < files.len(),
    ensures
        holds_file(build_forest(files), split_path(files[k].name), leaf_of(files[k])),
    decreases files.len(),
{
    let front = build_forest(files.drop_last());
    let segments = split_path(files.last().name);
    lemma_split_is_not_empty(files.last().name, '/');
    if k == files.len() - 1 {
        insert_holds_file(front, segments, leaf_of(files.last()));
    } else {
        built_forest_holds_every_file(files.drop_last(), k);
        insert_keeps_first_seen_order(front, segments, leaf_of(files.last()));
        extension_holds_file(
            front,
            build_forest(files),
            split_path(files[k].name),
            leaf_of(files[k]),
        );
    }
}

/// Extension carries over: what extends an extension of a forest extends the forest.
pub proof fn extends_is_transitive(first: Seq<Tree>, second: Seq<Tree>, third: Seq<Tree>)
    requires
        extends(first, second),
        extends(second, third),
    ensures
        extends(first, third),
    decreases first,
{
    assert forall|i: int| 0 <= i < first.len() implies match #[trigger] first[i] {
        Tree::File(_) => third[i] == first[i],
        Tree::Directory(name, children) => is_directory_named(third[i], name) && extends(
            children,
            children_of(third[i]),
        ),
    } by {
        match first[i] {
            Tree::File(_) => {
                assert(second[i] == first[i]);
            },
            Tree::Directory(_, children) => {
                assert(second[i] is Directory);
                extends_is_transitive(children, children_of(second[i]), children_of(third[i]));
            },
        }
    }
}

/// Siblings stand in the order in which the list of files first names them: the forest of
/// the first `n` files is kept in place by the forest of all of them.
pub proof fn built_forest_keeps_first_seen_order(files: Seq<FilesView>, n: int)
    requires
        0 <= n <= files.len(),
    ensures
        extends(build_forest(files.take(n)), build_forest(files)),
    decreases files.len() - n,
{
    if n == files.len() {
        assert(files.take(n) =~= files);
        lemma_extends_itself(build_forest(files));
    } else {
        let next = files.take(n + 1);
        assert(next.drop_last() =~= files.take(n));
        insert_keeps_first_seen_order(
            build_forest(files.take(n)),
            split_path(next.last().name),
            leaf_of(next.last()),
        );
        built_forest_keeps_first_seen_order(files, n + 1);
        extends_is_transitive(build_forest(files.take(n)), build_forest(next), build_forest(files));
    }
}

/// Number of files in one tree.
pub open spec fn files_in(tree: Tree) -> nat {
    match tree {
        Tree::File(_) => 1,
        Tree::Directory(_, children) => file_count(children),
    }
}

proof fn lemma_file_count_after_update(forest: Seq<Tree>, at: int, tree: Tree)
    requires
        0 <= at < forest.len(),
    ensures
        file_count(forest.update(at, tree)) + files_in(forest[at]) == file_count(forest) + files_in(
            tree,
        ),
    decreases forest.len(),
{
    let after = forest.update(at, tree);
    if at == forest.len() - 1 {
        assert(after.drop_last() =~= forest.drop_last());
    } else {
        assert(after.drop_last() =~= forest.drop_last().update(at, tree));
        lemma_file_count_after_update(forest.drop_last(), at, tree);
    }
}

/// Putting a file into a forest adds exactly one file to it.
pub proof fn insert_adds_one_file(forest: Seq<Tree>, segments: Seq<Seq<char>>, file: FilesView)
    requires
        segments.len() >= 1,
    ensures
        file_count(insert_path(forest, segments, file)) == file_count(forest) + 1,
    decreases segments.len(),
{
    let after = insert_path(forest, segments, file);
    if segments.len() == 1 {
        assert(after.drop_last() =~= forest);
    } else {
        let at = directory_index(forest, segments[0]);
        let rest = segments.drop_first();
        lemma_directory_index_names_directory(forest, segments[0], at);
        if at < forest.len() {
            insert_adds_one_file(children_of(forest[at]), rest, file);
            lemma_file_count_after_update(forest, at, after[at]);
        } else {
            insert_adds_one_file(Seq::empty(), rest, file);
            assert(after.drop_last() =~= forest);
        }
    }
}

/// The forest built from a list of files has one leaf for each of them, also where two of
/// them have the same path.
pub proof fn built_forest_has_one_leaf_per_file(files: Seq<FilesView>)
    ensures
        file_count(build_forest(files)) == files.len(),
    decreases files.len(),
{
    if files.len() > 0 {
        built_forest_has_one_leaf_per_file(files.drop_last());
        lemma_split_is_not_empty(files.last().name, '/');
        insert_adds_one_file(
            build_forest(files.drop_last()),
            split_path(files.last().name),
            leaf_of(files.last()),
        );
    }
}

/// Characters that each of the three columns behind the name of a file takes at least.
pub const COLUMN_WIDTH: usize = 10;

/// The line of a file in the tree: whether it is wanted, its name, and in three columns what
/// is downloaded, its size and its priority.
pub open spec fn file_label(file: FilesView) -> Seq<char> {
    bool_text(file.wanted) + " "@ + file.name + " "@ + padded_left(file.downloaded, 10) + "  "@
        + padded_left(file.total_size, 10) + "  "@ + padded_left(file.priority, 10)
}

/// The line of a node in the tree: a directory shows its name.
pub open spec fn label_text(tree: Tree) -> Seq<char> {
    match tree {
        Tree::File(file) => file_label(file),
        Tree::Directory(name, _) => name,
    }
}

/// The name by which a node is told from its siblings.
pub open spec fn identifier_text(tree: Tree) -> Seq<char> {
    match tree {
        Tree::File(file) => file.name,
        Tree::Directory(name, _) => name,
    }
}

impl Node {
    /// The name by which the node is told from its siblings.
    pub fn identifier(&self) -> (name: String)
        ensures
            name@ == identifier_text(self@),
    {
        match self {
            Node::File(file) => file.name.clone(),
            Node::Directory(name, _) => name.clone(),
        }
    }

    /// The line that the tree shows for the node.
    pub fn label(&self) -> (line: String)
        ensures
            line@ == label_text(self@),
    {
        match self {
            Node::File(file) => {
                let mut line = bool_string(file.wanted);
                line.append(" ");
                line.append(file.name.as_str());
                line.append(" ");
                line.append(pad_left(file.downloaded.as_str(), COLUMN_WIDTH).as_str());
                line.append("  ");
                line.append(pad_left(file.total_size.as_str(), COLUMN_WIDTH).as_str());
                line.append("  ");
                line.append(pad_left(file.priority.as_str(), COLUMN_WIDTH).as_str());
                assert(line@ =~= file_label(file@));
                line
            },
            Node::Directory(name, _) => name.clone(),
        }
    }
}

/// The tab with the files of a torrent.
#[derive(Debug)]
pub struct Tab {
    pub data: Torrent,
}

impl Tab {
    /// A tab that shows the files of the given torrent.
    pub fn new(data: &Torrent) -> (tab: Self)
        ensures
            tab.data@ == data@,
    {
        Tab { data: data.clone() }
    }

    /// Shows another state of the torrent.
    pub fn receive(&mut self, data: &Torrent)
        ensures
            final(self).data@ == data@,
    {
        self.data = data.clone();
    }

    /// The move one line down in the tree.
    pub fn down(&self) -> (command: TreeCommand)
        ensures
            command == TreeCommand::Down,
    {
        TreeCommand::Down
    }

    /// The move one line up in the tree.
    pub fn up(&self) -> (command: TreeCommand)
        ensures
            command == TreeCommand::Up,
    {
        TreeCommand::Up
    }

    /// The move up by some lines.
    pub fn scroll_up(&self, amount: usize) -> (command: TreeCommand)
        ensures
            command == TreeCommand::ScrollUp(amount),
    {
        TreeCommand::ScrollUp(amount)
    }

    /// The move down by some lines.
    pub fn scroll_down(&self, amount: usize) -> (command: TreeCommand)
        ensures
            command == TreeCommand::ScrollDown(amount),
    {
        TreeCommand::ScrollDown(amount)
    }

    /// The move to the first line of the tree.
    pub fn top(&self) -> (command: TreeCommand)
        ensures
            command == TreeCommand::Top,
    {
        TreeCommand::Top
    }

    /// The move to the last line of the tree.
    pub fn bottom(&self) -> (command: TreeCommand)
        ensures
            command == TreeCommand::Bottom,
    {
        TreeCommand::Bottom
    }

    /// The move that opens or closes the directory under the cursor.
    pub fn toggle(&self) -> (command: TreeCommand)
        ensures
            command == TreeCommand::Toggle,
    {
        TreeCommand::Toggle
    }

    /// What the tab shows: the tree of the files of the torrent.
    pub fn render(&self) -> (nodes: Vec<Node>)
        ensures
            forest_view(nodes@) == build_forest(self.data@.files),
    {
        parse_node(&self.data.files)
    }
}

} // verus!
