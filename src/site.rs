//! The state of a build: where things are, the layout registry, the parsed
//! documents and the post index, and the decisions of the discovery and copy
//! passes.
use crate::attributes::Attributes;
use crate::document::{is_template, is_template_path, parse_document, parsed_from, Document};
use crate::error::BuildError;
use crate::front_matter::body_of;
use crate::paths::{
    file_name, file_name_of, inside, join, join_path, parent, parent_of, relative_path,
    relative_to,
};
use vstd::prelude::*;

verus! {

/// The attribute maps of a post index.
pub open spec fn maps_of(posts: Seq<Attributes>) -> Seq<Map<Seq<char>, Seq<char>>> {
    posts.map_values(|a: Attributes| a@)
}

/// Whether the file at `p` is hidden: its name starts with a dot.
pub open spec fn is_hidden(p: Seq<char>) -> bool {
    file_name(p).len() > 0 && file_name(p)[0] == '.'
}

pub struct Site {
    pub source: String,
    pub dest: String,
    /// The layout directory, under `source`.
    pub layouts_dir: String,
    /// The posts directory, under `source`.
    pub posts_dir: String,
    /// Layout file name to layout text.
    pub layouts: Attributes,
    pub documents: Vec<Document>,
    /// The attributes of each post, in the order the posts were added.
    pub posts: Vec<Attributes>,
}

impl Site {
    /// A build from `source` to `dest`, with layouts in `source/layout_name`
    /// and posts in `source/posts_name`, with nothing loaded yet.
    pub fn new(source: &str, dest: &str, layout_name: &str, posts_name: &str) -> (r: Site)
        ensures
            r.source@ == source@,
            r.dest@ == dest@,
            r.layouts_dir@ == join(source@, layout_name@),
            r.posts_dir@ == join(source@, posts_name@),
            r.layouts@ == Map::<Seq<char>, Seq<char>>::empty(),
            r.documents@.len() == 0,
            r.posts@.len() == 0,
    {
        Site {
            source: String::from_str(source),
            dest: String::from_str(dest),
            layouts_dir: join_path(source, layout_name),
            posts_dir: join_path(source, posts_name),
            layouts: Attributes::new(),
            documents: Vec::new(),
            posts: Vec::new(),
        }
    }

    /// Registers the layout file at `path` under its file name; a later layout
    /// with the same name replaces an earlier one.
    pub fn add_layout(&mut self, path: &str, text: String)
        ensures
            final(self).layouts@ == old(self).layouts@.insert(file_name(path@), text@),
            final(self).source == old(self).source,
            final(self).dest == old(self).dest,
            final(self).layouts_dir == old(self).layouts_dir,
            final(self).posts_dir == old(self).posts_dir,
            final(self).documents == old(self).documents,
            final(self).posts == old(self).posts,
    {
        self.layouts.insert(file_name_of(path), text);
    }

    /// Whether the file at `path` is to be rendered: a template that is not
    /// directly in the layout directory.
    pub fn is_candidate(&self, path: &str) -> (r: bool)
        ensures
            r == (is_template(path@) && parent(path@) != self.layouts_dir@),
    {
        is_template_path(path) && parent_of(path) != self.layouts_dir
    }

    /// Parses the file at `path`, holding `text`, into a document of the
    /// build; a document directly in the posts directory also joins the post
    /// index. On failure nothing changes.
    pub fn add_document(&mut self, path: &str, text: &str) -> (r: Result<(), BuildError>)
        ensures
            body_of(text@) is None ==> (r matches Err(BuildError::Malformed(p)) && p@ == path@),
            body_of(text@) is Some && relative_to(path@, old(self).source@) is None ==> (r matches Err(
                BuildError::Path(p),
            ) && p@ == path@),
            r is Err ==> *final(self) == *old(self),
            r is Ok ==> {
                &&& body_of(text@) is Some
                &&& relative_to(path@, old(self).source@) is Some
                &&& final(self).documents@.len() == old(self).documents@.len() + 1
                &&& final(self).documents@.drop_last() == old(self).documents@
                &&& parsed_from(final(self).documents@.last(), path@, old(self).source@, text@)
                &&& maps_of(final(self).posts@) == if parent(path@) == old(self).posts_dir@ {
                    maps_of(old(self).posts@).push(final(self).documents@.last().attributes@)
                } else {
                    maps_of(old(self).posts@)
                }
            },
            body_of(text@) is Some && relative_to(path@, old(self).source@) is Some ==> r is Ok,
            final(self).source == old(self).source,
            final(self).dest == old(self).dest,
            final(self).layouts_dir == old(self).layouts_dir,
            final(self).posts_dir == old(self).posts_dir,
            final(self).layouts == old(self).layouts,
    {
        let doc = parse_document(path, self.source.as_str(), text)?;
        if parent_of(path) == self.posts_dir {
            self.posts.push(doc.attributes.copy_of());
            assert(maps_of(self.posts@) =~= maps_of(old(self).posts@).push(doc.attributes@));
        }
        self.documents.push(doc);
        assert(self.documents@.drop_last() =~= old(self).documents@);
        Ok(())
    }

    /// Whether the file at `p` stays out of the copy pass: hidden, a
    /// template, the output root itself, or in the layout directory.
    pub open spec fn excluded_from_copy(&self, p: Seq<char>) -> bool {
        is_hidden(p) || is_template(p) || p == self.dest@ || inside(p, self.layouts_dir@)
    }

    /// Where the copy pass puts the entry at `path`, relative to the output
    /// root: `None` when the entry is not copied (nothing is copied when the
    /// source is the output root).
    pub fn copy_target(&self, path: &str) -> (r: Result<Option<String>, BuildError>)
        ensures
            self.source@ == self.dest@ || self.excluded_from_copy(path@) ==> r matches Ok(None),
            !(self.source@ == self.dest@ || self.excluded_from_copy(path@)) ==> match relative_to(
                path@,
                self.source@,
            ) {
                Some(rel) => r matches Ok(Some(t)) && t@ == rel,
                None => r matches Err(BuildError::Path(p)) && p@ == path@,
            },
    {
        if self.source == self.dest {
            return Ok(None);
        }
        let name = file_name_of(path);
        let hidden = name.as_str().unicode_len() > 0 && name.as_str().get_char(0) == '.';
        let own = String::from_str(path);
        let in_layouts = relative_path(path, self.layouts_dir.as_str()).is_some();
        if hidden || is_template_path(path) || own == self.dest || in_layouts {
            return Ok(None);
        }
        match relative_path(path, self.source.as_str()) {
            Some(rel) => Ok(Some(rel)),
            None => Err(BuildError::Path(own)),
        }
    }
}

} // verus!
