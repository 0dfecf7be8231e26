//! The names of the configuration, turned into those of OpenSearch.
use crate::load::error::{ConfigErrorView, OpenSearchConfigError};
use crate::text::{ascii_lower, same_text, slice_text, to_lower};
use vstd::prelude::*;
use vstd::string::*;

verus! {

/// The model of a parsed name.
pub open spec fn name_result(r: Result<&'static str, OpenSearchConfigError>) -> Result<
    Seq<char>,
    ConfigErrorView,
> {
    match r {
        Ok(s) => Ok(s@),
        Err(e) => Err(e@),
    }
}

/// The model of a parsed optional name.
pub open spec fn optional_name_result(
    r: Result<Option<&'static str>, OpenSearchConfigError>,
) -> Result<Option<Seq<char>>, ConfigErrorView> {
    match r {
        Ok(s) => Ok(slice_text(s)),
        Err(e) => Err(e@),
    }
}

/// The OpenSearch `space_type` of a distance. An unset distance is cosine, not OpenSearch's own
/// `l2`.
pub open spec fn space_type(name: Seq<char>, value: Option<Seq<char>>) -> Result<
    Seq<char>,
    ConfigErrorView,
> {
    match value {
        None => Ok("cosinesimil"@),
        Some(v) => {
            let l = ascii_lower(v);
            if l == "cosine"@ || l == "cosinesimil"@ {
                Ok("cosinesimil"@)
            } else if l == "dot"@ || l == "innerproduct"@ || l == "ip"@ {
                Ok("innerproduct"@)
            } else if l == "euclid"@ || l == "euclidean"@ || l == "l2"@ {
                Ok("l2"@)
            } else if l == "manhattan"@ || l == "l1"@ {
                Ok("l1"@)
            } else {
                Err(ConfigErrorView::UnknownDistance { name, value: l })
            }
        },
    }
}

/// Turns a distance into an OpenSearch `space_type`, which is always written: two configurations
/// that look the same measure the same metric on every backend.
pub fn parse_space_type(name: &str, value: Option<&str>) -> (r: Result<
    &'static str,
    OpenSearchConfigError,
>)
    ensures
        name_result(r) == space_type(name@, slice_text(value)),
{
    match value {
        None => Ok("cosinesimil"),
        Some(v) => {
            let lower = to_lower(v);
            let l = lower.as_str();
            if same_text(l, "cosine") || same_text(l, "cosinesimil") {
                Ok("cosinesimil")
            } else if same_text(l, "dot") || same_text(l, "innerproduct") || same_text(l, "ip") {
                Ok("innerproduct")
            } else if same_text(l, "euclid") || same_text(l, "euclidean") || same_text(l, "l2") {
                Ok("l2")
            } else if same_text(l, "manhattan") || same_text(l, "l1") {
                Ok("l1")
            } else {
                Err(
                    OpenSearchConfigError::UnknownDistance {
                        name: name.to_owned(),
                        value: l.to_owned(),
                    },
                )
            }
        },
    }
}

/// The OpenSearch `data_type` of a datatype; none leaves the field unset. `float16` and `uint8`
/// are rejected rather than mapped onto a near miss.
pub open spec fn data_type(name: Seq<char>, value: Option<Seq<char>>) -> Result<
    Option<Seq<char>>,
    ConfigErrorView,
> {
    match value {
        None => Ok(None),
        Some(v) => {
            let l = ascii_lower(v);
            if l == "float32"@ || l == "f32"@ || l == "float"@ {
                Ok(Some("float"@))
            } else if l == "byte"@ || l == "int8"@ || l == "i8"@ {
                Ok(Some("byte"@))
            } else if l == "binary"@ {
                Ok(Some("binary"@))
            } else if l == "float16"@ || l == "f16"@ {
                Err(ConfigErrorView::Float16Datatype { name })
            } else if l == "uint8"@ || l == "u8"@ {
                Err(ConfigErrorView::Uint8Datatype { name })
            } else {
                Err(ConfigErrorView::UnknownDatatype { name, value: l })
            }
        },
    }
}

/// Turns a datatype into an OpenSearch `data_type`.
pub fn parse_data_type(name: &str, value: Option<&str>) -> (r: Result<
    Option<&'static str>,
    OpenSearchConfigError,
>)
    ensures
        optional_name_result(r) == data_type(name@, slice_text(value)),
{
    match value {
        None => Ok(None),
        Some(v) => {
            let lower = to_lower(v);
            let l = lower.as_str();
            if same_text(l, "float32") || same_text(l, "f32") || same_text(l, "float") {
                Ok(Some("float"))
            } else if same_text(l, "byte") || same_text(l, "int8") || same_text(l, "i8") {
                Ok(Some("byte"))
            } else if same_text(l, "binary") {
                Ok(Some("binary"))
            } else if same_text(l, "float16") || same_text(l, "f16") {
                Err(OpenSearchConfigError::Float16Datatype { name: name.to_owned() })
            } else if same_text(l, "uint8") || same_text(l, "u8") {
                Err(OpenSearchConfigError::Uint8Datatype { name: name.to_owned() })
            } else {
                Err(
                    OpenSearchConfigError::UnknownDatatype {
                        name: name.to_owned(),
                        value: l.to_owned(),
                    },
                )
            }
        },
    }
}

/// The name of an ANN method; `hnsw` where none is set.
pub open spec fn method_name(value: Option<Seq<char>>) -> Result<Seq<char>, ConfigErrorView> {
    match value {
        None => Ok("hnsw"@),
        Some(v) => {
            let l = ascii_lower(v);
            if l == "hnsw"@ {
                Ok("hnsw"@)
            } else if l == "ivf"@ {
                Ok("ivf"@)
            } else if l == "flat"@ {
                Ok("flat"@)
            } else if l == "disk_ann"@ || l == "diskann"@ {
                Ok("disk_ann"@)
            } else {
                Err(ConfigErrorView::UnknownMethodName(l))
            }
        },
    }
}

/// Reads the name of an ANN method.
pub fn parse_method_name(value: Option<&str>) -> (r: Result<&'static str, OpenSearchConfigError>)
    ensures
        name_result(r) == method_name(slice_text(value)),
{
    match value {
        None => Ok("hnsw"),
        Some(v) => {
            let lower = to_lower(v);
            let l = lower.as_str();
            if same_text(l, "hnsw") {
                Ok("hnsw")
            } else if same_text(l, "ivf") {
                Ok("ivf")
            } else if same_text(l, "flat") {
                Ok("flat")
            } else if same_text(l, "disk_ann") || same_text(l, "diskann") {
                Ok("disk_ann")
            } else {
                Err(OpenSearchConfigError::UnknownMethodName(l.to_owned()))
            }
        },
    }
}

/// The name of an engine; `faiss` where none is set, so that a configuration keeps its meaning
/// across server versions.
pub open spec fn engine_name(value: Option<Seq<char>>) -> Result<Seq<char>, ConfigErrorView> {
    match value {
        None => Ok("faiss"@),
        Some(v) => {
            let l = ascii_lower(v);
            if l == "faiss"@ {
                Ok("faiss"@)
            } else if l == "lucene"@ {
                Ok("lucene"@)
            } else if l == "nmslib"@ {
                Ok("nmslib"@)
            } else if l == "jvector"@ {
                Ok("jvector"@)
            } else {
                Err(ConfigErrorView::UnknownEngine(l))
            }
        },
    }
}

/// Reads the name of an engine.
pub fn parse_engine(value: Option<&str>) -> (r: Result<&'static str, OpenSearchConfigError>)
    ensures
        name_result(r) == engine_name(slice_text(value)),
{
    match value {
        None => Ok("faiss"),
        Some(v) => {
            let lower = to_lower(v);
            let l = lower.as_str();
            if same_text(l, "faiss") {
                Ok("faiss")
            } else if same_text(l, "lucene") {
                Ok("lucene")
            } else if same_text(l, "nmslib") {
                Ok("nmslib")
            } else if same_text(l, "jvector") {
                Ok("jvector")
            } else {
                Err(OpenSearchConfigError::UnknownEngine(l.to_owned()))
            }
        },
    }
}

/// The workload mode, if one is set.
pub open spec fn workload_mode(value: Option<Seq<char>>) -> Result<
    Option<Seq<char>>,
    ConfigErrorView,
> {
    match value {
        None => Ok(None),
        Some(v) => {
            let l = ascii_lower(v);
            if l == "in_memory"@ || l == "on_disk"@ {
                Ok(Some(l))
            } else {
                Err(ConfigErrorView::UnknownMode(l))
            }
        },
    }
}

/// Reads the workload mode.
pub fn parse_mode(value: Option<&str>) -> (r: Result<Option<&'static str>, OpenSearchConfigError>)
    ensures
        optional_name_result(r) == workload_mode(slice_text(value)),
{
    match value {
        None => Ok(None),
        Some(v) => {
            let lower = to_lower(v);
            let l = lower.as_str();
            if same_text(l, "in_memory") {
                Ok(Some("in_memory"))
            } else if same_text(l, "on_disk") {
                Ok(Some("on_disk"))
            } else {
                Err(OpenSearchConfigError::UnknownMode(l.to_owned()))
            }
        },
    }
}

/// The compression level, if one is set.
pub open spec fn compression(value: Option<Seq<char>>) -> Result<
    Option<Seq<char>>,
    ConfigErrorView,
> {
    match value {
        None => Ok(None),
        Some(v) => {
            let l = ascii_lower(v);
            if l == "1x"@ || l == "2x"@ || l == "4x"@ || l == "8x"@ || l == "16x"@ || l
                == "32x"@ {
                Ok(Some(l))
            } else {
                Err(ConfigErrorView::UnknownCompressionLevel(l))
            }
        },
    }
}

/// Reads the compression level.
pub fn parse_compression_level(value: Option<&str>) -> (r: Result<
    Option<&'static str>,
    OpenSearchConfigError,
>)
    ensures
        optional_name_result(r) == compression(slice_text(value)),
{
    match value {
        None => Ok(None),
        Some(v) => {
            let lower = to_lower(v);
            let l = lower.as_str();
            if same_text(l, "1x") {
                Ok(Some("1x"))
            } else if same_text(l, "2x") {
                Ok(Some("2x"))
            } else if same_text(l, "4x") {
                Ok(Some("4x"))
            } else if same_text(l, "8x") {
                Ok(Some("8x"))
            } else if same_text(l, "16x") {
                Ok(Some("16x"))
            } else if same_text(l, "32x") {
                Ok(Some("32x"))
            } else {
                Err(OpenSearchConfigError::UnknownCompressionLevel(l.to_owned()))
            }
        },
    }
}

/// The name of an encoder.
pub open spec fn encoder_name(value: Seq<char>) -> Result<Seq<char>, ConfigErrorView> {
    let l = ascii_lower(value);
    if l == "flat"@ || l == "sq"@ || l == "pq"@ {
        Ok(l)
    } else {
        Err(ConfigErrorView::UnknownEncoder(l))
    }
}

/// Reads the name of an encoder.
pub fn parse_encoder_name(value: &str) -> (r: Result<&'static str, OpenSearchConfigError>)
    ensures
        name_result(r) == encoder_name(value@),
{
    let lower = to_lower(value);
    let l = lower.as_str();
    if same_text(l, "flat") {
        Ok("flat")
    } else if same_text(l, "sq") {
        Ok("sq")
    } else if same_text(l, "pq") {
        Ok("pq")
    } else {
        Err(OpenSearchConfigError::UnknownEncoder(l.to_owned()))
    }
}

} // verus!
