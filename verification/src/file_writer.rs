//! The files that the renderers produce.

use vstd::prelude::*;
use vstd::string::*;

verus! {

/// A file that was rendered and waits to be stored.
pub struct GeneratedFile {
    /// The folder of the file, relative to the base of the output.
    pub folder: String,
    /// The name of the file inside its folder.
    pub filename: String,
    /// What the file holds.
    pub contents: String,
}

impl GeneratedFile {
    /// The folder, the name and the contents of the file.
    pub open spec fn view(&self) -> (Seq<char>, Seq<char>, Seq<char>) {
        (self.folder@, self.filename@, self.contents@)
    }
}

/// The output of a run of the generator: the folder for circuit files and the
/// files written so far, oldest first.
pub struct BBFiles {
    /// The folder that circuit builders are written into.
    pub circuit: String,
    /// The files written so far.
    pub files: Vec<GeneratedFile>,
}

impl BBFiles {
    /// The files written so far, each as folder, name and contents.
    pub open spec fn written(&self) -> Seq<(Seq<char>, Seq<char>, Seq<char>)> {
        Seq::new(self.files@.len(), |i: int| self.files@[i].view())
    }

    /// An output with the folder `circuit` for circuit files and no file yet.
    pub fn new(circuit: String) -> (files: BBFiles)
        ensures
            files.circuit@ == circuit@,
            files.written() == Seq::<(Seq<char>, Seq<char>, Seq<char>)>::empty(),
    {
        let files = BBFiles { circuit, files: Vec::new() };
        assert(files.written() =~= Seq::empty());
        files
    }

    /// Adds the file `filename` in `folder` with `contents` to the output.
    pub fn write_file(&mut self, folder: &str, filename: &str, contents: &String)
        ensures
            final(self).circuit == old(self).circuit,
            final(self).written() == old(self).written().push((folder@, filename@, contents@)),
    {
        let file = GeneratedFile {
            folder: String::from_str(folder),
            filename: String::from_str(filename),
            contents: contents.clone(),
        };
        self.files.push(file);
        assert(self.written() =~= old(self).written().push((folder@, filename@, contents@)));
    }
}

} // verus!
