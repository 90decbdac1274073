use vstd::prelude::*;

use crate::descriptor::FileKind;
use crate::json::JsonValue;

verus! {

#[derive(Debug, PartialEq, Eq, Clone, Copy)]
pub enum HttpMethod {
    Get,
    Post,
    Put,
    Delete,
}

/// What a request carries: nothing, a JSON document, a url-encoded
/// form, or one file as a multipart form beside extra text fields.
#[derive(Debug)]
pub enum RequestBody {
    Empty,
    Json(JsonValue),
    Form(Vec<(String, String)>),
    Multipart {
        file_part_name: String,
        file_kind: FileKind,
        mime_type: String,
        extra: Vec<(String, String)>,
    },
}

/// One fully described HTTP request, ready for a transport to send:
/// everything here is plain data.
#[derive(Debug)]
pub struct HttpRequest {
    pub method: HttpMethod,
    pub url: String,
    pub headers: Vec<(String, String)>,
    pub body: RequestBody,
    pub timeout: u64,
}

/// A byte buffer handed out in chunks of a fixed size, so that a
/// sender can report progress between chunks.
#[derive(Debug)]
pub struct BytesStream {
    pub data: Vec<u8>,
    pub chunk_size: usize,
    pub cursor: usize,
}

impl BytesStream {
    pub fn new(data: Vec<u8>, chunk_size: usize) -> (r: Self)
        ensures
            r.data == data,
            r.chunk_size == chunk_size,
            r.cursor == 0,
    {
        BytesStream { data, chunk_size, cursor: 0 }
    }

    /// The next chunk: the bytes from the cursor up to one chunk
    /// further (or the end), moving the cursor past them; `None` once
    /// everything was handed out.
    pub fn next_chunk(&mut self) -> (r: Option<Vec<u8>>)
        requires
            old(self).cursor + old(self).chunk_size <= usize::MAX,
        ensures
            final(self).data == old(self).data,
            final(self).chunk_size == old(self).chunk_size,
            old(self).cursor >= old(self).data@.len() ==> r is None && *final(self) == *old(self),
            old(self).cursor < old(self).data@.len() ==> {
                let end = if old(self).cursor + old(self).chunk_size <= old(self).data@.len() {
                    old(self).cursor + old(self).chunk_size
                } else {
                    old(self).data@.len() as int
                };
                r matches Some(c) && c@ == old(self).data@.subrange(old(self).cursor as int, end)
                    && final(self).cursor == end
            },
    {
        let len = self.data.len();
        if self.cursor >= len {
            return None;
        }
        let end = if self.cursor + self.chunk_size <= len {
            self.cursor + self.chunk_size
        } else {
            len
        };
        let mut chunk: Vec<u8> = Vec::new();
        let mut i: usize = self.cursor;
        while i < end
            invariant
                self.cursor <= i <= end <= self.data@.len(),
                chunk@.len() == i - self.cursor,
                forall|j: int|
                    self.cursor <= j < i ==> chunk@[j - self.cursor] == self.data@[j],
            decreases end - i,
        {
            chunk.push(self.data[i]);
            i += 1;
        }
        proof {
            assert(chunk@ =~= self.data@.subrange(self.cursor as int, end as int));
        }
        self.cursor = end;
        Some(chunk)
    }
}

} // verus!
