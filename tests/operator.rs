use std::cell::RefCell;
use std::collections::BTreeMap;
use std::rc::Rc;
use std::time::Duration;

use opfacade::{
    Accessor, AccessorInfo, BlockingList, BlockingRead, BlockingWrite, BytesRange, Capability,
    Entry, EntryMode, Error, ErrorKind, Metadata, OpDelete, OpList, OpRead, OpStat, OpWrite,
    Operator, PresignOperation, PresignedRequest, read_to_size, remove_tree, run_requests, write_all, write_and_close, Deleter,
    DeleteRequest, TreeRemoval, WriteSession,
};

#[derive(Default)]
struct State {
    files: BTreeMap<String, (Vec<u8>, String)>,
    log: Vec<String>,
    batches: Vec<Vec<String>>,
    write_calls: usize,
    close_calls: usize,
}

/// A backend in memory. Directories exist while some key lies below them.
/// It ignores the conditions of a stat, leaving them to the façade.
#[derive(Clone)]
struct Memory {
    state: Rc<RefCell<State>>,
    cap: Capability,
    max_write: usize,
    read_chunk: usize,
    short_read: bool,
}

impl Memory {
    fn new(batch: bool) -> Memory {
        let mut cap = Capability::new();
        cap.batch = batch;
        cap.presign = true;
        Memory {
            state: Rc::new(RefCell::new(State::default())),
            cap,
            max_write: usize::MAX,
            read_chunk: 3,
            short_read: false,
        }
    }

    fn put(&self, path: &str, data: &[u8], etag: &str) {
        self.state.borrow_mut().files.insert(path.to_string(), (data.to_vec(), etag.to_string()));
    }

    fn log(&self) -> Vec<String> {
        self.state.borrow().log.clone()
    }
}

struct MemReader {
    data: Vec<u8>,
    pos: usize,
    chunk: usize,
}

impl BlockingRead for MemReader {
    fn read(&mut self) -> Result<Vec<u8>, Error> {
        let end = (self.pos + self.chunk).min(self.data.len());
        let out = self.data[self.pos..end].to_vec();
        self.pos = end;
        Ok(out)
    }
}

struct MemWriter {
    state: Rc<RefCell<State>>,
    path: String,
    buf: Vec<u8>,
    max: usize,
}

impl BlockingWrite for MemWriter {
    fn write(&mut self, bs: &[u8]) -> Result<usize, Error> {
        let n = bs.len().min(self.max);
        self.buf.extend_from_slice(&bs[..n]);
        self.state.borrow_mut().write_calls += 1;
        Ok(n)
    }

    fn close(&mut self) -> Result<(), Error> {
        let mut st = self.state.borrow_mut();
        st.close_calls += 1;
        st.log.push(format!("close {}", self.path));
        st.files.insert(self.path.clone(), (self.buf.clone(), "etag-new".to_string()));
        Ok(())
    }
}

struct MemLister {
    entries: Vec<Entry>,
    pos: usize,
}

impl BlockingList for MemLister {
    fn next(&mut self) -> Result<Option<Entry>, Error> {
        if self.pos < self.entries.len() {
            self.pos += 1;
            Ok(Some(self.entries[self.pos - 1].clone()))
        } else {
            Ok(None)
        }
    }
}

impl Memory {
    fn mode_of(&self, path: &str) -> Option<EntryMode> {
        let st = self.state.borrow();
        if path.ends_with('/') {
            let root = path == "/";
            if root || st.files.keys().any(|k| k.starts_with(path)) {
                Some(EntryMode::Dir)
            } else {
                None
            }
        } else if st.files.contains_key(path) {
            Some(EntryMode::File)
        } else {
            None
        }
    }
}

impl Accessor for Memory {
    type Reader = MemReader;
    type Writer = MemWriter;
    type Lister = MemLister;

    fn info(&self) -> AccessorInfo {
        AccessorInfo::new("memory", self.cap)
    }

    fn create_dir(&self, path: &str) -> Result<(), Error> {
        self.put(path, b"", "dir");
        Ok(())
    }

    fn stat(&self, path: &str, _args: OpStat) -> Result<Metadata, Error> {
        self.state.borrow_mut().log.push(format!("stat {}", path));
        match self.mode_of(path) {
            Some(EntryMode::File) => {
                let st = self.state.borrow();
                let (data, etag) = &st.files[path];
                Ok(Metadata::new(EntryMode::File)
                    .with_content_length(data.len() as u64)
                    .with_etag(etag))
            }
            Some(m) => Ok(Metadata::new(m)),
            None => Err(Error::new(ErrorKind::NotFound, "no such object")),
        }
    }

    fn read(&self, path: &str, args: OpRead) -> Result<MemReader, Error> {
        let st = self.state.borrow();
        let (data, _) = st.files.get(path).ok_or(Error::new(ErrorKind::NotFound, "no such object"))?;
        let r = args.range.complete(data.len() as u64);
        let off = r.offset.unwrap() as usize;
        let size = r.size.unwrap() as usize;
        let end = (off + size).min(data.len());
        let start = off.min(end);
        let mut bytes = data[start..end].to_vec();
        if self.short_read {
            bytes.pop();
        }
        Ok(MemReader { data: bytes, pos: 0, chunk: self.read_chunk })
    }

    fn write(&self, path: &str, _args: OpWrite) -> Result<MemWriter, Error> {
        Ok(MemWriter { state: self.state.clone(), path: path.to_string(), buf: Vec::new(), max: self.max_write })
    }

    fn delete(&self, path: &str, _args: OpDelete) -> Result<(), Error> {
        let mut st = self.state.borrow_mut();
        st.log.push(format!("delete {}", path));
        if st.files.remove(path).is_none() && !path.ends_with('/') {
            return Err(Error::new(ErrorKind::NotFound, "no such object"));
        }
        Ok(())
    }

    fn list(&self, path: &str, args: OpList) -> Result<MemLister, Error> {
        let st = self.state.borrow();
        let prefix = if path == "/" { "" } else { path };
        let mut entries = Vec::new();
        for k in st.files.keys() {
            if k.len() > prefix.len() && k.starts_with(prefix) {
                let rest = &k[prefix.len()..];
                let inner = rest.trim_end_matches('/');
                if args.recursive || !inner.contains('/') {
                    let mode = if k.ends_with('/') { EntryMode::Dir } else { EntryMode::File };
                    entries.push(Entry::new(k, Metadata::new(mode)));
                }
            }
        }
        Ok(MemLister { entries, pos: 0 })
    }

    fn copy(&self, from: &str, to: &str) -> Result<(), Error> {
        let mut st = self.state.borrow_mut();
        st.log.push(format!("copy {} {}", from, to));
        let v = st.files.get(from).cloned().ok_or(Error::new(ErrorKind::NotFound, "no such object"))?;
        st.files.insert(to.to_string(), v);
        Ok(())
    }

    fn rename(&self, from: &str, to: &str) -> Result<(), Error> {
        let mut st = self.state.borrow_mut();
        st.log.push(format!("rename {} {}", from, to));
        let v = st.files.remove(from).ok_or(Error::new(ErrorKind::NotFound, "no such object"))?;
        st.files.insert(to.to_string(), v);
        Ok(())
    }

    fn batch_delete(&self, paths: Vec<String>) -> Result<Vec<(String, Result<(), Error>)>, Error> {
        let mut st = self.state.borrow_mut();
        st.batches.push(paths.clone());
        let mut out = Vec::new();
        for p in paths {
            st.log.push(format!("delete {}", p));
            let r = if st.files.remove(&p).is_some() || p.ends_with('/') {
                Ok(())
            } else {
                Err(Error::new(ErrorKind::NotFound, "no such object"))
            };
            out.push((p, r));
        }
        Ok(out)
    }

    fn presign(&self, path: &str, op: PresignOperation, _expire: Duration) -> Result<PresignedRequest, Error> {
        let method = match op {
            PresignOperation::Stat(_) => "HEAD",
            PresignOperation::Read(_) => "GET",
            PresignOperation::Write(_) => "PUT",
        };
        Ok(PresignedRequest { method: method.to_string(), uri: format!("mem://{}", path), headers: Vec::new() })
    }
}

#[test]
fn limit_defaults_and_overrides() {
    let op = Operator::from_inner(Memory::new(false));
    assert_eq!(op.limit(), 1000);
    assert_eq!(op.with_limit(7).limit(), 7);
    let mut mem = Memory::new(true);
    mem.cap.batch_max_operations = Some(25);
    let op = Operator::from_inner(mem);
    assert_eq!(op.limit(), 25);
    assert!(op.info().full_capability().batch);
    assert_eq!(op.info().scheme(), "memory");
}

#[test]
fn copy_onto_itself_is_same_file_without_backend() {
    let mem = Memory::new(false);
    mem.put("x", b"data", "e");
    let op = Operator::from_inner(mem.clone());
    assert_eq!(op.copy("x", "x").unwrap_err().kind(), ErrorKind::IsSameFile);
    assert_eq!(op.rename("x", "/x").unwrap_err().kind(), ErrorKind::IsSameFile);
    assert!(mem.log().is_empty());
}

#[test]
fn copy_and_rename_files() {
    let mem = Memory::new(false);
    mem.put("a", b"data", "e");
    let op = Operator::from_inner(mem.clone());
    op.copy("a", "b").unwrap();
    op.copy("a", "b").unwrap();
    assert_eq!(op.read("b").unwrap(), b"data".to_vec());
    op.rename("b", "c").unwrap();
    assert!(!op.is_exist("b").unwrap());
    assert!(op.is_exist("c").unwrap());
    assert_eq!(op.copy("d/", "c").unwrap_err().kind(), ErrorKind::IsADirectory);
    assert_eq!(op.rename("a", "d/").unwrap_err().kind(), ErrorKind::IsADirectory);
}

#[test]
fn read_without_range_returns_whole_content() {
    let mem = Memory::new(false);
    mem.put("f", b"0123456789", "e");
    let op = Operator::from_inner(mem);
    let buf = op.read("f").unwrap();
    assert_eq!(buf.len(), 10);
    assert_eq!(buf, b"0123456789".to_vec());
}

#[test]
fn read_with_ranges() {
    let mem = Memory::new(false);
    mem.put("f", b"0123456789", "e");
    let op = Operator::from_inner(mem);
    let buf = op.read_with("f").range(BytesRange::new(Some(2), Some(3))).call().unwrap();
    assert_eq!(buf, b"234".to_vec());
    let buf = op.read_with("f").range(BytesRange::new(Some(6), None)).call().unwrap();
    assert_eq!(buf, b"6789".to_vec());
    let buf = op.read_with("f").range(BytesRange::new(None, Some(2))).call().unwrap();
    assert_eq!(buf, b"89".to_vec());
}

#[test]
fn read_of_directory_is_refused() {
    let op = Operator::from_inner(Memory::new(false));
    assert_eq!(op.read("d/").unwrap_err().kind(), ErrorKind::IsADirectory);
    assert_eq!(op.reader("d/").err().unwrap().kind(), ErrorKind::IsADirectory);
    assert_eq!(op.write("d/", vec![1]).unwrap_err().kind(), ErrorKind::IsADirectory);
    assert_eq!(op.writer("d/").err().unwrap().kind(), ErrorKind::IsADirectory);
}

#[test]
fn short_read_is_content_incomplete() {
    let mut mem = Memory::new(false);
    mem.short_read = true;
    mem.put("f", b"0123456789", "e");
    let op = Operator::from_inner(mem);
    assert_eq!(op.read("f").unwrap_err().kind(), ErrorKind::ContentIncomplete);
}

#[test]
fn remove_all_missing_path_succeeds() {
    let mem = Memory::new(false);
    let op = Operator::from_inner(mem.clone());
    op.remove_all("missing").unwrap();
    op.remove_all("missing/").unwrap();
    assert!(mem.log().iter().all(|l| l.starts_with("stat")));
}

#[test]
fn remove_via_batches_by_limit() {
    let mem = Memory::new(true);
    for p in ["a", "b", "c", "d", "e"] {
        mem.put(p, b"x", "e");
    }
    let op = Operator::from_inner(mem.clone()).with_limit(2);
    let paths: Vec<String> = ["a", "//b", "c", "d", "e"].iter().map(|s| s.to_string()).collect();
    op.remove_via(&paths).unwrap();
    let batches = mem.state.borrow().batches.clone();
    assert_eq!(batches.len(), 3);
    assert_eq!(batches[0], vec!["a".to_string(), "b".to_string()]);
    assert_eq!(batches[2], vec!["e".to_string()]);
    assert!(mem.state.borrow().files.is_empty());
}

#[test]
fn remove_without_batch_deletes_each_and_ignores_missing() {
    let mem = Memory::new(false);
    mem.put("a", b"x", "e");
    let op = Operator::from_inner(mem.clone());
    op.remove(vec!["a".to_string(), "gone".to_string()]).unwrap();
    assert_eq!(mem.log(), vec!["delete a".to_string(), "delete gone".to_string()]);
    assert!(mem.state.borrow().batches.is_empty());
}

#[test]
fn stat_if_match_mismatch_is_condition_not_match() {
    let mem = Memory::new(false);
    mem.put("f", b"x", "etag-B");
    let op = Operator::from_inner(mem);
    let e = op.stat_with("f").if_match("etag-A").call().unwrap_err();
    assert_eq!(e.kind(), ErrorKind::ConditionNotMatch);
    let m = op.stat_with("f").if_match("etag-B").call().unwrap();
    assert_eq!(m.etag.as_deref(), Some("etag-B"));
    assert_eq!(op.stat("missing").unwrap_err().kind(), ErrorKind::NotFound);
}

#[test]
fn remove_all_directory_deletes_children_first() {
    for batch in [false, true] {
        let mem = Memory::new(batch);
        mem.put("dir/a", b"1", "e");
        mem.put("dir/b", b"2", "e");
        mem.put("other", b"3", "e");
        let op = Operator::from_inner(mem.clone());
        op.remove_all("dir/").unwrap();
        let log = mem.log();
        let deletes: Vec<&String> = log.iter().filter(|l| l.starts_with("delete")).collect();
        assert_eq!(deletes, vec!["delete dir/a", "delete dir/b", "delete dir/"]);
        assert!(op.list("dir/").unwrap().is_empty());
        assert!(op.is_exist("other").unwrap());
    }
}

#[test]
fn remove_all_file_deletes_it() {
    let mem = Memory::new(false);
    mem.put("f", b"1", "e");
    let op = Operator::from_inner(mem.clone());
    op.remove_all("f").unwrap();
    assert!(!op.is_exist("f").unwrap());
}

#[test]
fn write_in_small_pieces_persists_all_and_closes_once() {
    let mut mem = Memory::new(false);
    mem.max_write = 4096;
    let op = Operator::from_inner(mem.clone());
    let data: Vec<u8> = (0..10000u32).map(|i| (i % 251) as u8).collect();
    op.write_with("big", data.clone()).content_type("application/octet-stream").call().unwrap();
    let st = mem.state.borrow();
    assert_eq!(st.files["big"].0, data);
    assert_eq!(st.write_calls, 3);
    assert_eq!(st.close_calls, 1);
}

#[test]
fn write_that_takes_nothing_fails() {
    let mut mem = Memory::new(false);
    mem.max_write = 0;
    let op = Operator::from_inner(mem.clone());
    assert_eq!(op.write("f", vec![1, 2]).unwrap_err().kind(), ErrorKind::Unexpected);
    assert_eq!(mem.state.borrow().close_calls, 0);
}

#[test]
fn list_direct_and_recursive() {
    let mem = Memory::new(false);
    mem.put("d/a", b"1", "e");
    mem.put("d/s/b", b"2", "e");
    let op = Operator::from_inner(mem);
    let direct: Vec<String> = op.list("d/").unwrap().iter().map(|e| e.path().to_string()).collect();
    assert_eq!(direct, vec!["d/a".to_string()]);
    let all = op.list_with("d/").recursive(true).limit(10).call().unwrap();
    assert_eq!(all.len(), 2);
    let mut lister = op.lister_with("/d//").recursive(true).call().unwrap();
    assert_eq!(lister.next().unwrap().unwrap().path(), "d/a");
}

#[test]
fn create_dir_requires_trailing_slash() {
    let op = Operator::from_inner(Memory::new(false));
    assert_eq!(op.create_dir("d").unwrap_err().kind(), ErrorKind::NotADirectory);
    op.create_dir("d/").unwrap();
    assert!(op.is_exist("d/").unwrap());
}

#[test]
fn delete_missing_path_is_success() {
    let op = Operator::from_inner(Memory::new(false));
    op.delete("nothing").unwrap();
    op.delete_with("nothing").version("v1").call().unwrap();
}

#[test]
fn check_lists_root() {
    let op = Operator::from_inner(Memory::new(false));
    op.check().unwrap();
}

#[test]
fn presign_normalizes_path() {
    let op = Operator::from_inner(Memory::new(false));
    let r = op.presign_read("//a//b", Duration::from_secs(60)).unwrap();
    assert_eq!(r.method(), "GET");
    assert_eq!(r.uri(), "mem://a/b");
    assert_eq!(op.presign_write("x", Duration::from_secs(1)).unwrap().method(), "PUT");
    assert_eq!(op.presign_stat("x", Duration::from_secs(1)).unwrap().method(), "HEAD");
}

#[test]
fn builders_record_options() {
    let op = Operator::from_inner(Memory::new(false));
    let w = op.writer_with("f").append(true).buffer(8).cache_control("no-cache").content_disposition("inline");
    let mut writer = w.call().unwrap();
    assert_eq!(writer.write(b"abc").unwrap(), 3);
    writer.close().unwrap();
    let mut reader = op
        .reader_with("f")
        .range(BytesRange::full())
        .if_match("etag-new")
        .if_none_match("other")
        .version("v")
        .override_content_type("text/plain")
        .override_cache_control("no-store")
        .override_content_disposition("attachment")
        .call()
        .unwrap();
    assert_eq!(reader.read().unwrap(), b"abc".to_vec());
    let m = op.stat_with("f").if_none_match("zzz").version("v").call().unwrap();
    assert_eq!(m.content_length(), Some(3));
}

#[test]
fn blocking_handle_keeps_limit() {
    let op = Operator::from_inner(Memory::new(true)).with_limit(3);
    let b = op.blocking();
    assert_eq!(b.limit(), 3);
    assert!(b.info().full_capability().batch);
}

#[test]
fn presign_without_capability_is_unsupported() {
    let mut mem = Memory::new(false);
    mem.cap.presign = false;
    let op = Operator::from_inner(mem);
    let e = op.presign_read("a", Duration::from_secs(1)).unwrap_err();
    assert_eq!(e.kind(), ErrorKind::Unsupported);
    assert_eq!(op.presign_stat_with("a", OpStat::new(), Duration::from_secs(1)).unwrap_err().kind(), ErrorKind::Unsupported);
}

fn context_of(e: &Error, key: &str) -> Option<String> {
    e.context.iter().find(|(k, _)| k == key).map(|(_, v)| v.clone())
}

#[test]
fn structural_errors_carry_context() {
    let op = Operator::from_inner(Memory::new(false));
    let e = op.copy("x", "/x").unwrap_err();
    assert_eq!(e.operation(), "Operator::copy");
    assert_eq!(context_of(&e, "service").as_deref(), Some("memory"));
    assert_eq!(context_of(&e, "from").as_deref(), Some("x"));
    assert_eq!(context_of(&e, "to").as_deref(), Some("x"));
    let e = op.create_dir("//a//b").unwrap_err();
    assert_eq!(e.operation(), "create_dir");
    assert_eq!(context_of(&e, "path").as_deref(), Some("a/b"));
    let e = op.read("d//").unwrap_err();
    assert_eq!(e.operation(), "read");
    assert_eq!(context_of(&e, "path").as_deref(), Some("d/"));
    let e = op.write("d/", vec![1]).unwrap_err();
    assert_eq!(e.operation(), "Operator::write_with");
}

#[test]
fn remove_all_with_uses_the_stat_result() {
    let mem = Memory::new(false);
    mem.put("f", b"1", "e");
    let op = Operator::from_inner(mem.clone());
    op.remove_all_with("f", Err(Error::new(ErrorKind::NotFound, "gone")), &mut Deleter::new(op.inner())).unwrap();
    assert!(mem.log().is_empty());
    let e = op.remove_all_with("f", Err(Error::new(ErrorKind::PermissionDenied, "no")), &mut Deleter::new(op.inner())).unwrap_err();
    assert_eq!(e.kind(), ErrorKind::PermissionDenied);
    assert!(mem.log().is_empty());
    op.remove_all_with("f", Ok(Metadata::new(EntryMode::File)), &mut Deleter::new(op.inner())).unwrap();
    assert_eq!(mem.log(), vec!["delete f".to_string()]);
}

#[test]
fn remove_all_batches_by_limit_then_root() {
    let mem = Memory::new(true);
    for p in ["dir/a", "dir/b", "dir/c", "dir/d", "dir/e"] {
        mem.put(p, b"x", "e");
    }
    let op = Operator::from_inner(mem.clone()).with_limit(2);
    op.remove_all("dir/").unwrap();
    let batches = mem.state.borrow().batches.clone();
    assert_eq!(batches.len(), 3);
    assert_eq!(batches[0], vec!["dir/a".to_string(), "dir/b".to_string()]);
    assert_eq!(batches[2], vec!["dir/e".to_string()]);
    assert_eq!(mem.log().last().map(|s| s.as_str()), Some("delete dir/"));
}

#[test]
fn remove_via_empty_is_success() {
    let mem = Memory::new(true);
    let op = Operator::from_inner(mem.clone());
    op.remove_via(&Vec::new()).unwrap();
    op.remove(Vec::new()).unwrap();
    assert!(mem.state.borrow().batches.is_empty());
}

#[test]
fn write_all_counts_every_byte() {
    let mem = Memory::new(false);
    let w = MemWriter { state: mem.state.clone(), path: "f".to_string(), buf: Vec::new(), max: 1 };
    let mut session = WriteSession::new(w);
    assert_eq!(write_all(&mut session, b"hello").unwrap(), 5);
    assert_eq!(write_all(&mut session, b"").unwrap(), 0);
    assert_eq!(mem.state.borrow().write_calls, 5);
    write_and_close(&mut session, b"!").unwrap();
    let st = mem.state.borrow();
    assert_eq!(st.files["f"].0, b"hello!".to_vec());
    assert_eq!(st.close_calls, 1);
}

#[test]
fn read_to_size_checks_length() {
    let mut r = MemReader { data: b"abcdef".to_vec(), pos: 0, chunk: 4 };
    assert_eq!(read_to_size(&mut r, 6).unwrap(), b"abcdef".to_vec());
    let mut r = MemReader { data: b"abcdef".to_vec(), pos: 0, chunk: 4 };
    assert_eq!(read_to_size(&mut r, 5).unwrap_err().kind(), ErrorKind::ContentIncomplete);
    let mut r = MemReader { data: b"abc".to_vec(), pos: 0, chunk: 4 };
    assert_eq!(read_to_size(&mut r, 5).unwrap_err().kind(), ErrorKind::ContentIncomplete);
}

struct FailingWriter {
    state: Rc<RefCell<State>>,
}

impl BlockingWrite for FailingWriter {
    fn write(&mut self, _bs: &[u8]) -> Result<usize, Error> {
        Err(Error::new(ErrorKind::PermissionDenied, "refused"))
    }

    fn close(&mut self) -> Result<(), Error> {
        self.state.borrow_mut().close_calls += 1;
        Ok(())
    }
}

#[test]
fn failed_write_is_result_and_no_close() {
    let mem = Memory::new(false);
    let mut session = WriteSession::new(FailingWriter { state: mem.state.clone() });
    let e = write_and_close(&mut session, b"abc").unwrap_err();
    assert_eq!(e.kind(), ErrorKind::PermissionDenied);
    assert_eq!(mem.state.borrow().close_calls, 0);
}

#[test]
fn deleter_runs_requests_in_order_and_stops_at_failure() {
    let mem = Memory::new(true);
    mem.put("a", b"1", "e");
    let op = Operator::from_inner(mem.clone());
    let mut d = Deleter::new(op.inner());
    let reqs = vec![
        DeleteRequest::Single("a".to_string()),
        DeleteRequest::Single("gone".to_string()),
        DeleteRequest::Batch(vec!["b".to_string()]),
    ];
    run_requests(&mut d, reqs).unwrap();
    assert_eq!(mem.log(), vec!["delete a".to_string(), "delete gone".to_string(), "delete b".to_string()]);
}

struct FailOn {
    inner: Memory,
    path: &'static str,
}

impl Clone for FailOn {
    fn clone(&self) -> Self {
        FailOn { inner: self.inner.clone(), path: self.path }
    }
}

impl Accessor for FailOn {
    type Reader = MemReader;
    type Writer = MemWriter;
    type Lister = MemLister;

    fn info(&self) -> AccessorInfo {
        self.inner.info()
    }
    fn create_dir(&self, path: &str) -> Result<(), Error> {
        self.inner.create_dir(path)
    }
    fn stat(&self, path: &str, args: OpStat) -> Result<Metadata, Error> {
        self.inner.stat(path, args)
    }
    fn read(&self, path: &str, args: OpRead) -> Result<MemReader, Error> {
        self.inner.read(path, args)
    }
    fn write(&self, path: &str, args: OpWrite) -> Result<MemWriter, Error> {
        self.inner.write(path, args)
    }
    fn delete(&self, path: &str, args: OpDelete) -> Result<(), Error> {
        if path == self.path {
            self.inner.state.borrow_mut().log.push(format!("failed {}", path));
            return Err(Error::new(ErrorKind::PermissionDenied, "refused"));
        }
        self.inner.delete(path, args)
    }
    fn list(&self, path: &str, args: OpList) -> Result<MemLister, Error> {
        self.inner.list(path, args)
    }
    fn copy(&self, from: &str, to: &str) -> Result<(), Error> {
        self.inner.copy(from, to)
    }
    fn rename(&self, from: &str, to: &str) -> Result<(), Error> {
        self.inner.rename(from, to)
    }
    fn batch_delete(&self, paths: Vec<String>) -> Result<Vec<(String, Result<(), Error>)>, Error> {
        self.inner.batch_delete(paths)
    }
    fn presign(&self, path: &str, op: PresignOperation, expire: Duration) -> Result<PresignedRequest, Error> {
        self.inner.presign(path, op, expire)
    }
}

#[test]
fn remove_all_child_failure_keeps_directory() {
    let mem = Memory::new(false);
    mem.put("dir/a", b"1", "e");
    mem.put("dir/b", b"2", "e");
    let op = Operator::from_inner(FailOn { inner: mem.clone(), path: "dir/a" });
    let e = op.remove_all("dir/").unwrap_err();
    assert_eq!(e.kind(), ErrorKind::PermissionDenied);
    let log = mem.log();
    assert!(!log.iter().any(|l| l == "delete dir/"));
    assert!(!log.iter().any(|l| l == "delete dir/b"));
}

#[test]
fn remove_tree_deletes_root_last() {
    let mem = Memory::new(false);
    mem.put("dir/a", b"1", "e");
    let op = Operator::from_inner(mem.clone());
    let mut d = Deleter::new(op.inner());
    let mut lister = op.lister_with("dir/").recursive(true).call().unwrap();
    remove_tree(&mut d, &mut lister, TreeRemoval::new(false, 10, "//dir/")).unwrap();
    assert_eq!(mem.log(), vec!["delete dir/a".to_string(), "delete dir/".to_string()]);
}

#[test]
fn remove_via_first_failure_stops() {
    let mem = Memory::new(false);
    mem.put("a", b"1", "e");
    mem.put("c", b"1", "e");
    let op = Operator::from_inner(FailOn { inner: mem.clone(), path: "b" });
    let paths: Vec<String> = ["a", "b", "c"].iter().map(|s| s.to_string()).collect();
    let mut d = Deleter::new(op.inner());
    let e = op.remove_via_with(&paths, &mut d).unwrap_err();
    assert_eq!(e.kind(), ErrorKind::PermissionDenied);
    assert_eq!(mem.log(), vec!["delete a".to_string(), "failed b".to_string()]);
}
