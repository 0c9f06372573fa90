//! The files attached to a riddle: fetching their bytes from the store and
//! showing them with the riddle.

use crate::db::{DB, DBView, StoredFileView};
use crate::error::Error;
use crate::ident::Oid;
use crate::model::{
    Riddle, RiddleView, UploadedFile, UploadedFileVariant, UploadedFileVariantView,
    UploadedFileView, text_view,
};
use crate::responses::{FileResponse, FileVariantResponse, RiddleResponse};
use crate::seqs::{first_index, lemma_first_index_is, lemma_first_index_none};
use vstd::prelude::*;
use vstd::string::StringExecFns;

verus! {

/// The chunks of a file, one after the other.
pub open spec fn joined(chunks: Seq<Seq<u8>>) -> Seq<u8>
    decreases chunks.len(),
{
    if chunks.len() == 0 {
        Seq::empty()
    } else {
        joined(chunks.drop_last()) + chunks.last()
    }
}

/// Puts the chunks of a file together.
pub fn join_chunks(chunks: &Vec<Vec<u8>>) -> (data: Vec<u8>)
    ensures
        data@ == joined(chunks@.map_values(|c: Vec<u8>| c@)),
{
    let ghost all = chunks@.map_values(|c: Vec<u8>| c@);
    let mut data: Vec<u8> = Vec::new();
    let mut i: usize = 0;
    assert(all.take(0) =~= Seq::empty());
    while i < chunks.len()
        invariant
            i <= chunks.len(),
            all == chunks@.map_values(|c: Vec<u8>| c@),
            data@ == joined(all.take(i as int)),
        decreases chunks.len() - i,
    {
        let chunk = &chunks[i];
        let mut k: usize = 0;
        let ghost before = data@;
        while k < chunk.len()
            invariant
                k <= chunk.len(),
                data@ == before + chunk@.take(k as int),
            decreases chunk.len() - k,
        {
            data.push(chunk[k]);
            assert(chunk@.take(k + 1) =~= chunk@.take(k as int).push(chunk@[k as int]));
            k += 1;
            assert(data@ =~= before + chunk@.take(k as int));
        }
        proof {
            assert(chunk@.take(chunk@.len() as int) =~= chunk@);
            assert(all.take(i + 1).drop_last() =~= all.take(i as int));
            assert(all.take(i + 1).last() == chunk@);
        }
        i += 1;
    }
    assert(all.take(chunks.len() as int) =~= all);
    data
}

/// One resolution of a picture as it is shown.
pub struct FileVariantResponseView {
    pub name: Seq<char>,
    pub data: Seq<u8>,
    pub scale: Option<u32>,
}

impl View for FileVariantResponse {
    type V = FileVariantResponseView;

    open spec fn view(&self) -> FileVariantResponseView {
        FileVariantResponseView { name: self.name@, data: self.data@, scale: self.scale }
    }
}

/// An attached file as it is shown.
pub struct FileResponseView {
    pub ok: bool,
    pub message: Option<Seq<char>>,
    pub id: Oid,
    pub name: Seq<char>,
    pub data: Seq<u8>,
    pub mime_type: Seq<char>,
    pub width: Option<u32>,
    pub height: Option<u32>,
    pub scale: Option<u32>,
    pub variants: Option<Seq<FileVariantResponseView>>,
}

/// The views of a list of variants as they are shown.
pub open spec fn variant_responses_view(v: Option<Vec<FileVariantResponse>>) -> Option<
    Seq<FileVariantResponseView>,
> {
    match v {
        Some(v) => Some(v@.map_values(|x: FileVariantResponse| x@)),
        None => None,
    }
}

impl View for FileResponse {
    type V = FileResponseView;

    open spec fn view(&self) -> FileResponseView {
        FileResponseView {
            ok: self.ok,
            message: text_view(self.message),
            id: self.id,
            name: self.name@,
            data: self.data@,
            mime_type: self.mime_type@,
            width: self.width,
            height: self.height,
            scale: self.scale,
            variants: variant_responses_view(self.variants),
        }
    }
}

/// A riddle as it is shown.
pub struct RiddleResponseView {
    pub ok: bool,
    pub message: Option<Seq<char>>,
    pub id: Oid,
    pub level: u32,
    pub files: Option<Seq<FileResponseView>>,
    pub task: Option<Seq<char>>,
    pub difficulty: i32,
    pub deduction: i32,
    pub ignore_case: bool,
    pub credits: Option<Seq<char>>,
}

/// The views of a list of files as they are shown.
pub open spec fn file_responses_view(v: Option<Vec<FileResponse>>) -> Option<Seq<FileResponseView>> {
    match v {
        Some(v) => Some(v@.map_values(|x: FileResponse| x@)),
        None => None,
    }
}

impl View for RiddleResponse {
    type V = RiddleResponseView;

    open spec fn view(&self) -> RiddleResponseView {
        RiddleResponseView {
            ok: self.ok,
            message: text_view(self.message),
            id: self.id,
            level: self.level,
            files: file_responses_view(self.files),
            task: text_view(self.task),
            difficulty: self.difficulty,
            deduction: self.deduction,
            ignore_case: self.ignore_case,
            credits: text_view(self.credits),
        }
    }
}

/// A variant as it is shown with its bytes.
pub open spec fn variant_shown(v: UploadedFileVariantView, data: Seq<u8>) -> FileVariantResponseView {
    FileVariantResponseView { name: v.name, data, scale: Some(v.scale) }
}

/// A file as it is shown with its bytes and its variants.
pub open spec fn file_shown(
    f: UploadedFileView,
    data: Seq<u8>,
    variants: Option<Seq<FileVariantResponseView>>,
) -> FileResponseView {
    FileResponseView {
        ok: true,
        message: None,
        id: f.file_id,
        name: f.name,
        data,
        mime_type: f.mime_type,
        width: f.width,
        height: f.height,
        scale: f.scale,
        variants,
    }
}

/// A riddle as it is shown with its files: its task, but neither its
/// solution nor its debriefing.
pub open spec fn riddle_shown(r: RiddleView, files: Seq<FileResponseView>) -> RiddleResponseView {
    RiddleResponseView {
        ok: true,
        message: None,
        id: r.id,
        level: r.level,
        files: Some(files),
        task: r.task,
        difficulty: r.difficulty,
        deduction: r.penalty() as i32,
        ignore_case: r.folds_case(),
        credits: r.credits,
    }
}

impl FileVariantResponse {
    /// Shows a variant with its bytes.
    pub fn of(variant: &UploadedFileVariant, data: Vec<u8>) -> (r: FileVariantResponse)
        ensures
            r@ == variant_shown(variant@, data@),
    {
        FileVariantResponse { name: variant.name.clone(), data, scale: Some(variant.scale) }
    }
}

impl FileResponse {
    /// Shows a file with its bytes and its variants.
    pub fn of(file: &UploadedFile, data: Vec<u8>, variants: Option<Vec<FileVariantResponse>>) -> (r:
        FileResponse)
        ensures
            r@ == file_shown(file@, data@, variant_responses_view(variants)),
    {
        FileResponse {
            ok: true,
            message: None,
            id: file.file_id,
            name: file.name.clone(),
            data,
            mime_type: file.mime_type.clone(),
            width: file.width,
            height: file.height,
            scale: file.scale,
            variants,
        }
    }
}

impl RiddleResponse {
    /// Shows a riddle with its files.
    pub fn of(riddle: Riddle, files: Vec<FileResponse>) -> (r: RiddleResponse)
        ensures
            r@ == riddle_shown(riddle@, files@.map_values(|x: FileResponse| x@)),
    {
        let deduction = riddle.penalty();
        let ignore_case = riddle.folds_case();
        RiddleResponse {
            ok: true,
            message: None,
            id: riddle.id,
            level: riddle.level,
            files: Some(files),
            task: riddle.task,
            difficulty: riddle.difficulty,
            deduction,
            ignore_case,
            credits: riddle.credits,
        }
    }
}

impl DBView {
    /// The bytes of the first stored file with that identifier.
    pub open spec fn file_bytes(self, id: Oid) -> Option<Seq<u8>> {
        match first_index(self.files, |f: StoredFileView| f.id == id) {
            Some(i) => Some(joined(self.files[i].chunks)),
            None => None,
        }
    }

    /// Whether the store holds the bytes of each of the variants.
    pub open spec fn holds_variants(self, variants: Seq<UploadedFileVariantView>) -> bool {
        forall|i: int|
            0 <= i < variants.len() ==> self.file_bytes((#[trigger] variants[i]).file_id) is Some
    }

    /// The variants as they are shown, each with its bytes.
    pub open spec fn variants_shown(self, variants: Seq<UploadedFileVariantView>) -> Seq<
        FileVariantResponseView,
    > {
        variants.map_values(
            |v: UploadedFileVariantView| variant_shown(v, self.file_bytes(v.file_id).unwrap()),
        )
    }

    /// Whether the store holds the bytes of the file and of each of its
    /// variants.
    pub open spec fn holds_file(self, f: UploadedFileView) -> bool {
        &&& self.file_bytes(f.file_id) is Some
        &&& match f.variants {
            Some(v) => self.holds_variants(v),
            None => true,
        }
    }

    /// A file as it is shown: with its bytes, and with its variants, which
    /// are none where the file has none.
    pub open spec fn file_shown(self, f: UploadedFileView) -> FileResponseView {
        file_shown(
            f,
            self.file_bytes(f.file_id).unwrap(),
            Some(
                match f.variants {
                    Some(v) => self.variants_shown(v),
                    None => Seq::empty(),
                },
            ),
        )
    }

    /// Whether the store holds the bytes of every file of the list.
    pub open spec fn holds_files(self, files: Seq<UploadedFileView>) -> bool {
        forall|i: int| 0 <= i < files.len() ==> self.holds_file(#[trigger] files[i])
    }

    /// The files as they are shown.
    pub open spec fn files_shown(self, files: Seq<UploadedFileView>) -> Seq<FileResponseView> {
        files.map_values(|f: UploadedFileView| self.file_shown(f))
    }
}

impl DB {
    /// The bytes of the first stored file with that identifier, or a
    /// `GridFSError` where the store holds none.
    pub fn open_download_stream(&self, id: &Oid) -> (r: Result<Vec<u8>, Error>)
        ensures
            match self@.file_bytes(*id) {
                Some(bytes) => r matches Ok(data) && data@ == bytes,
                None => r matches Err(e) && e is GridFSError,
            },
    {
        let ghost p = |f: StoredFileView| f.id == *id;
        let mut i: usize = 0;
        while i < self.files.len()
            invariant
                i <= self.files.len(),
                p == (|f: StoredFileView| f.id == *id),
                forall|j: int| 0 <= j < i ==> !p(#[trigger] self@.files[j]),
            decreases self.files.len() - i,
        {
            if self.files[i].id == *id {
                proof {
                    lemma_first_index_is(self@.files, p, i as int);
                }
                return Ok(join_chunks(&self.files[i].chunks));
            }
            i += 1;
        }
        proof {
            lemma_first_index_none(self@.files, p);
        }
        Err(Error::GridFSError(String::from_str("file not found")))
    }

    /// Shows the variants, each with its bytes, or fails with a
    /// `GridFSError` where the bytes of one are missing.
    pub fn show_variants(&self, variants: &Vec<UploadedFileVariant>) -> (r: Result<
        Vec<FileVariantResponse>,
        Error,
    >)
        ensures
            ({
                let wanted = variants@.map_values(|x: UploadedFileVariant| x@);
                if self@.holds_variants(wanted) {
                    r matches Ok(shown) && shown@.map_values(|x: FileVariantResponse| x@)
                        == self@.variants_shown(wanted)
                } else {
                    r matches Err(e) && e is GridFSError
                }
            }),
    {
        let ghost wanted = variants@.map_values(|x: UploadedFileVariant| x@);
        let mut shown: Vec<FileVariantResponse> = Vec::new();
        let mut i: usize = 0;
        while i < variants.len()
            invariant
                i <= variants.len(),
                wanted == variants@.map_values(|x: UploadedFileVariant| x@),
                shown@.len() == i,
                forall|j: int| 0 <= j < i ==> self@.file_bytes((#[trigger] wanted[j]).file_id) is Some,
                forall|j: int|
                    0 <= j < i ==> (#[trigger] shown@[j])@ == variant_shown(
                        wanted[j],
                        self@.file_bytes(wanted[j].file_id).unwrap(),
                    ),
            decreases variants.len() - i,
        {
            let data = match self.open_download_stream(&variants[i].file_id) {
                Ok(data) => data,
                Err(e) => {
                    assert(self@.file_bytes(wanted[i as int].file_id) is None);
                    return Err(e);
                },
            };
            shown.push(FileVariantResponse::of(&variants[i], data));
            i += 1;
        }
        assert(shown@.map_values(|x: FileVariantResponse| x@) =~= self@.variants_shown(wanted));
        Ok(shown)
    }

    /// Shows the file with its bytes and its variants, or fails with a
    /// `GridFSError` where some bytes are missing.
    pub fn show_file(&self, file: &UploadedFile) -> (r: Result<FileResponse, Error>)
        ensures
            if self@.holds_file(file@) {
                r matches Ok(shown) && shown@ == self@.file_shown(file@)
            } else {
                r matches Err(e) && e is GridFSError
            },
    {
        let data = match self.open_download_stream(&file.file_id) {
            Ok(data) => data,
            Err(e) => {
                return Err(e);
            },
        };
        let variants = match &file.variants {
            Some(variants) => match self.show_variants(variants) {
                Ok(shown) => shown,
                Err(e) => {
                    return Err(e);
                },
            },
            None => {
                let none: Vec<FileVariantResponse> = Vec::new();
                assert(none@.map_values(|x: FileVariantResponse| x@) =~= Seq::empty());
                none
            },
        };
        Ok(FileResponse::of(file, data, Some(variants)))
    }

    /// Shows the files of a riddle, or fails with a `GridFSError` where some
    /// bytes are missing.
    pub fn show_files(&self, files: &Vec<UploadedFile>) -> (r: Result<Vec<FileResponse>, Error>)
        ensures
            ({
                let wanted = files@.map_values(|x: UploadedFile| x@);
                if self@.holds_files(wanted) {
                    r matches Ok(shown) && shown@.map_values(|x: FileResponse| x@)
                        == self@.files_shown(wanted)
                } else {
                    r matches Err(e) && e is GridFSError
                }
            }),
    {
        let ghost wanted = files@.map_values(|x: UploadedFile| x@);
        let mut shown: Vec<FileResponse> = Vec::new();
        let mut i: usize = 0;
        while i < files.len()
            invariant
                i <= files.len(),
                wanted == files@.map_values(|x: UploadedFile| x@),
                shown@.len() == i,
                forall|j: int| 0 <= j < i ==> self@.holds_file(#[trigger] wanted[j]),
                forall|j: int| 0 <= j < i ==> (#[trigger] shown@[j])@ == self@.file_shown(wanted[j]),
            decreases files.len() - i,
        {
            let file = match self.show_file(&files[i]) {
                Ok(file) => file,
                Err(e) => {
                    assert(!self@.holds_file(wanted[i as int]));
                    return Err(e);
                },
            };
            shown.push(file);
            i += 1;
        }
        assert(shown@.map_values(|x: FileResponse| x@) =~= self@.files_shown(wanted));
        Ok(shown)
    }
}

/// What is shown of files depends on the stored files alone.
pub proof fn lemma_files_shown_by_files(a: DBView, b: DBView, files: Seq<UploadedFileView>)
    requires
        a.files == b.files,
    ensures
        a.holds_files(files) == b.holds_files(files),
        a.files_shown(files) == b.files_shown(files),
{
    assert forall|id: Oid| a.file_bytes(id) == b.file_bytes(id) by {}
    assert forall|v: Seq<UploadedFileVariantView>|
        a.holds_variants(v) == b.holds_variants(v) && #[trigger] a.variants_shown(v)
            == b.variants_shown(v) by {
        assert(a.variants_shown(v) =~= b.variants_shown(v));
    }
    assert forall|f: UploadedFileView|
        a.holds_file(f) == b.holds_file(f) && #[trigger] a.file_shown(f) == b.file_shown(f) by {
        if let Some(v) = f.variants {
            assert(a.variants_shown(v) == b.variants_shown(v));
        }
    }
    assert(a.files_shown(files) =~= b.files_shown(files));
}

impl DBView {
    /// Whether the store holds the bytes of every file of the list, their
    /// variants aside.
    pub open spec fn holds_plain_files(self, files: Seq<UploadedFileView>) -> bool {
        forall|i: int| 0 <= i < files.len() ==> self.file_bytes((#[trigger] files[i]).file_id) is Some
    }

    /// The files as they are shown without their variants.
    pub open spec fn plain_files_shown(self, files: Seq<UploadedFileView>) -> Seq<FileResponseView> {
        files.map_values(
            |f: UploadedFileView| file_shown(f, self.file_bytes(f.file_id).unwrap(), None),
        )
    }
}

impl DB {
    /// Shows the files of a riddle without their variants, or fails with a
    /// `GridFSError` where some bytes are missing.
    pub fn show_plain_files(&self, files: &Vec<UploadedFile>) -> (r: Result<
        Vec<FileResponse>,
        Error,
    >)
        ensures
            ({
                let wanted = files@.map_values(|x: UploadedFile| x@);
                if self@.holds_plain_files(wanted) {
                    r matches Ok(shown) && shown@.map_values(|x: FileResponse| x@)
                        == self@.plain_files_shown(wanted)
                } else {
                    r matches Err(e) && e is GridFSError
                }
            }),
    {
        let ghost wanted = files@.map_values(|x: UploadedFile| x@);
        let mut shown: Vec<FileResponse> = Vec::new();
        let mut i: usize = 0;
        while i < files.len()
            invariant
                i <= files.len(),
                wanted == files@.map_values(|x: UploadedFile| x@),
                shown@.len() == i,
                forall|j: int| 0 <= j < i ==> self@.file_bytes((#[trigger] wanted[j]).file_id) is Some,
                forall|j: int|
                    0 <= j < i ==> (#[trigger] shown@[j])@ == file_shown(
                        wanted[j],
                        self@.file_bytes(wanted[j].file_id).unwrap(),
                        None,
                    ),
            decreases files.len() - i,
        {
            let data = match self.open_download_stream(&files[i].file_id) {
                Ok(data) => data,
                Err(e) => {
                    assert(self@.file_bytes(wanted[i as int].file_id) is None);
                    return Err(e);
                },
            };
            shown.push(FileResponse::of(&files[i], data, None));
            i += 1;
        }
        assert(shown@.map_values(|x: FileResponse| x@) =~= self@.plain_files_shown(wanted));
        Ok(shown)
    }
}

} // verus!
