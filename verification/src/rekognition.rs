//! What the face-recognition service is asked, and what it replies.
use vstd::prelude::*;

verus! {

/// How sure the service is of a match.
///
/// The service gives a percentage in floating point. It is carried here as the encoding of
/// the fraction (the percentage over one hundred) and as the whole percents that are shown.
#[derive(Clone, Copy, Debug, PartialEq, Eq, Structural)]
pub struct Confidence {
    /// The IEEE 754 single-precision encoding of the fraction.
    pub bits: u32,
    /// The fraction times one hundred, without its decimals.
    pub percent: i32,
}

/// Which of the faces on a photo are too poor to be stored.
#[derive(Clone, Copy, Debug, PartialEq, Eq, Structural)]
pub enum QualityFilter {
    /// The service decides.
    Auto,
}

/// How many faces a request is about: the most prominent one.
pub const MAX_FACES: i32 = 1;

/// A request for the known faces that resemble the face on a photo.
pub struct SearchRequest {
    pub collection_id: String,
    pub image: Vec<u8>,
    pub max_faces: i32,
    /// The least similarity of a match, in percent: its IEEE 754 single-precision encoding.
    pub face_match_threshold_bits: u32,
}

/// What a [`SearchRequest`] holds.
pub struct SearchRequestView {
    pub collection_id: Seq<char>,
    pub image: Seq<u8>,
    pub max_faces: i32,
    pub face_match_threshold_bits: u32,
}

impl View for SearchRequest {
    type V = SearchRequestView;

    open spec fn view(&self) -> SearchRequestView {
        SearchRequestView {
            collection_id: self.collection_id@,
            image: self.image@,
            max_faces: self.max_faces,
            face_match_threshold_bits: self.face_match_threshold_bits,
        }
    }
}

/// A request to store the face on a photo.
pub struct IndexRequest {
    pub collection_id: String,
    pub image: Vec<u8>,
    pub external_image_id: String,
    pub max_faces: i32,
    pub quality_filter: QualityFilter,
}

/// What an [`IndexRequest`] holds.
pub struct IndexRequestView {
    pub collection_id: Seq<char>,
    pub image: Seq<u8>,
    pub external_image_id: Seq<char>,
    pub max_faces: i32,
    pub quality_filter: QualityFilter,
}

impl View for IndexRequest {
    type V = IndexRequestView;

    open spec fn view(&self) -> IndexRequestView {
        IndexRequestView {
            collection_id: self.collection_id@,
            image: self.image@,
            external_image_id: self.external_image_id@,
            max_faces: self.max_faces,
            quality_filter: self.quality_filter,
        }
    }
}

/// A face that the service knows. Each of its parts can be missing in a reply.
pub struct Face {
    /// The identifier that the service gave to the face.
    pub face_id: Option<String>,
    /// The identifier that was given with the photo: the name of the person.
    pub external_image_id: Option<String>,
}

/// A known face that resembles a searched one.
pub struct FaceMatch {
    pub face: Option<Face>,
    pub similarity: Option<Confidence>,
}

/// A face that was found on a photo and stored.
pub struct FaceRecord {
    pub face: Option<Face>,
}

/// The reply to a search by photo.
pub struct SearchReply {
    pub face_matches: Option<Vec<FaceMatch>>,
}

/// The reply to a request to store the faces on a photo.
pub struct IndexReply {
    pub face_records: Option<Vec<FaceRecord>>,
}

/// The reply to a request for all stored faces.
pub struct ListReply {
    pub faces: Option<Vec<Face>>,
}

/// A request to the face-recognition service shows all that it holds.
pub proof fn law_requests_show_all_they_hold(search: SearchRequest, index: IndexRequest)
    ensures
        search@.collection_id == search.collection_id@,
        search@.image == search.image@,
        search@.max_faces == search.max_faces,
        search@.face_match_threshold_bits == search.face_match_threshold_bits,
        index@.collection_id == index.collection_id@,
        index@.image == index.image@,
        index@.external_image_id == index.external_image_id@,
        index@.max_faces == index.max_faces,
        index@.quality_filter == index.quality_filter,
{
}

} // verus!
