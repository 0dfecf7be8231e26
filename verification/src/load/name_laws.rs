//! What each name of a configuration means.
use crate::load::config::VectorKind;
use crate::load::convert::{
    compression, data_type, encoder_name, engine_name, method_name, space_type, workload_mode,
};
use crate::load::error::{config_error_text, ConfigErrorView};
use crate::text::ascii_lower;
use vstd::prelude::*;
use vstd::string::*;

verus! {

/// These texts differ from each other.
proof fn lemma_space_type_names()
    ensures
        "cosine"@ != "cosinesimil"@,
        "cosine"@ != "dot"@,
        "cosine"@ != "innerproduct"@,
        "cosine"@ != "ip"@,
        "cosine"@ != "euclid"@,
        "cosine"@ != "euclidean"@,
        "cosine"@ != "l2"@,
        "cosine"@ != "manhattan"@,
        "cosine"@ != "l1"@,
        "cosinesimil"@ != "dot"@,
        "cosinesimil"@ != "innerproduct"@,
        "cosinesimil"@ != "ip"@,
        "cosinesimil"@ != "euclid"@,
        "cosinesimil"@ != "euclidean"@,
        "cosinesimil"@ != "l2"@,
        "cosinesimil"@ != "manhattan"@,
        "cosinesimil"@ != "l1"@,
        "dot"@ != "innerproduct"@,
        "dot"@ != "ip"@,
        "dot"@ != "euclid"@,
        "dot"@ != "euclidean"@,
        "dot"@ != "l2"@,
        "dot"@ != "manhattan"@,
        "dot"@ != "l1"@,
        "innerproduct"@ != "ip"@,
        "innerproduct"@ != "euclid"@,
        "innerproduct"@ != "euclidean"@,
        "innerproduct"@ != "l2"@,
        "innerproduct"@ != "manhattan"@,
        "innerproduct"@ != "l1"@,
        "ip"@ != "euclid"@,
        "ip"@ != "euclidean"@,
        "ip"@ != "l2"@,
        "ip"@ != "manhattan"@,
        "ip"@ != "l1"@,
        "euclid"@ != "euclidean"@,
        "euclid"@ != "l2"@,
        "euclid"@ != "manhattan"@,
        "euclid"@ != "l1"@,
        "euclidean"@ != "l2"@,
        "euclidean"@ != "manhattan"@,
        "euclidean"@ != "l1"@,
        "l2"@ != "manhattan"@,
        "l2"@ != "l1"@,
        "manhattan"@ != "l1"@,
{
    reveal_strlit("cosine");
    reveal_strlit("cosinesimil");
    reveal_strlit("dot");
    reveal_strlit("innerproduct");
    reveal_strlit("ip");
    reveal_strlit("euclid");
    reveal_strlit("euclidean");
    reveal_strlit("l2");
    reveal_strlit("manhattan");
    reveal_strlit("l1");
    assert("cosine"@.len() == 6);
    assert("cosinesimil"@.len() == 11);
    assert("dot"@.len() == 3);
    assert("innerproduct"@.len() == 12);
    assert("ip"@.len() == 2);
    assert("euclid"@.len() == 6);
    assert("euclidean"@.len() == 9);
    assert("l2"@.len() == 2);
    assert("manhattan"@.len() == 9);
    assert("l1"@.len() == 2);
    assert("cosine"@[0] != "euclid"@[0]);
    assert("ip"@[0] != "l2"@[0]);
    assert("ip"@[0] != "l1"@[0]);
    assert("euclidean"@[0] != "manhattan"@[0]);
    assert("l2"@[1] != "l1"@[1]);
}

/// Every distance has one space, by each of its names and in any case; an unset one is cosine, and
/// any other name is reported, in lower case, with the vector it was given for.
pub proof fn law_distances_and_their_spaces(name: Seq<char>, value: Seq<char>)
    ensures
        space_type(name, None) == Ok::<Seq<char>, ConfigErrorView>("cosinesimil"@),
        ({
            let l = ascii_lower(value);
            let r = space_type(name, Some(value));
            &&& l == "cosine"@ || l == "cosinesimil"@ ==> r == Ok::<Seq<char>, ConfigErrorView>(
                "cosinesimil"@,
            )
            &&& l == "dot"@ || l == "innerproduct"@ || l == "ip"@
                ==> r == Ok::<Seq<char>, ConfigErrorView>(
                "innerproduct"@,
            )
            &&& l == "euclid"@ || l == "euclidean"@ || l == "l2"@
                ==> r == Ok::<Seq<char>, ConfigErrorView>(
                "l2"@,
            )
            &&& l == "manhattan"@ || l == "l1"@ ==> r == Ok::<Seq<char>, ConfigErrorView>("l1"@)
            &&& l != "cosine"@ && l != "cosinesimil"@ && l != "dot"@ && l != "innerproduct"@
                && l != "ip"@ && l != "euclid"@ && l != "euclidean"@ && l != "l2"@
                && l != "manhattan"@ && l != "l1"@ ==> r == Err::<Seq<char>, ConfigErrorView>(
                ConfigErrorView::UnknownDistance { name, value: l },
            )
        }),
{
    lemma_space_type_names();
}

/// These texts differ from each other.
proof fn lemma_method_name_names()
    ensures
        "hnsw"@ != "ivf"@,
        "hnsw"@ != "flat"@,
        "hnsw"@ != "disk_ann"@,
        "hnsw"@ != "diskann"@,
        "ivf"@ != "flat"@,
        "ivf"@ != "disk_ann"@,
        "ivf"@ != "diskann"@,
        "flat"@ != "disk_ann"@,
        "flat"@ != "diskann"@,
        "disk_ann"@ != "diskann"@,
{
    reveal_strlit("hnsw");
    reveal_strlit("ivf");
    reveal_strlit("flat");
    reveal_strlit("disk_ann");
    reveal_strlit("diskann");
    assert("hnsw"@.len() == 4);
    assert("ivf"@.len() == 3);
    assert("flat"@.len() == 4);
    assert("disk_ann"@.len() == 8);
    assert("diskann"@.len() == 7);
    assert("hnsw"@[0] != "flat"@[0]);
}

/// Every method has one name, in any case; an unset one is `hnsw`, and any other name is reported.
pub proof fn law_methods_and_their_names(value: Seq<char>)
    ensures
        method_name(None) == Ok::<Seq<char>, ConfigErrorView>("hnsw"@),
        ({
            let l = ascii_lower(value);
            let r = method_name(Some(value));
            &&& l == "hnsw"@ ==> r == Ok::<Seq<char>, ConfigErrorView>("hnsw"@)
            &&& l == "ivf"@ ==> r == Ok::<Seq<char>, ConfigErrorView>("ivf"@)
            &&& l == "flat"@ ==> r == Ok::<Seq<char>, ConfigErrorView>("flat"@)
            &&& l == "disk_ann"@ || l == "diskann"@ ==> r == Ok::<Seq<char>, ConfigErrorView>(
                "disk_ann"@,
            )
            &&& l != "hnsw"@ && l != "ivf"@ && l != "flat"@ && l != "disk_ann"@
                && l != "diskann"@ ==> r == Err::<Seq<char>, ConfigErrorView>(
                ConfigErrorView::UnknownMethodName(l),
            )
        }),
{
    lemma_method_name_names();
}

/// These texts differ from each other.
proof fn lemma_engine_name_names()
    ensures
        "faiss"@ != "lucene"@,
        "faiss"@ != "nmslib"@,
        "faiss"@ != "jvector"@,
        "lucene"@ != "nmslib"@,
        "lucene"@ != "jvector"@,
        "nmslib"@ != "jvector"@,
{
    reveal_strlit("faiss");
    reveal_strlit("lucene");
    reveal_strlit("nmslib");
    reveal_strlit("jvector");
    assert("faiss"@.len() == 5);
    assert("lucene"@.len() == 6);
    assert("nmslib"@.len() == 6);
    assert("jvector"@.len() == 7);
    assert("lucene"@[0] != "nmslib"@[0]);
}

/// Every engine has one name, in any case; an unset one is `faiss`, and any other name is reported.
pub proof fn law_engines_and_their_names(value: Seq<char>)
    ensures
        engine_name(None) == Ok::<Seq<char>, ConfigErrorView>("faiss"@),
        ({
            let l = ascii_lower(value);
            let r = engine_name(Some(value));
            &&& l == "faiss"@ ==> r == Ok::<Seq<char>, ConfigErrorView>("faiss"@)
            &&& l == "lucene"@ ==> r == Ok::<Seq<char>, ConfigErrorView>("lucene"@)
            &&& l == "nmslib"@ ==> r == Ok::<Seq<char>, ConfigErrorView>("nmslib"@)
            &&& l == "jvector"@ ==> r == Ok::<Seq<char>, ConfigErrorView>("jvector"@)
            &&& l != "faiss"@ && l != "lucene"@ && l != "nmslib"@ && l != "jvector"@
                ==> r == Err::<Seq<char>, ConfigErrorView>(
                ConfigErrorView::UnknownEngine(l),
            )
        }),
{
    lemma_engine_name_names();
}

/// These texts differ from each other.
proof fn lemma_workload_mode_names()
    ensures
        "in_memory"@ != "on_disk"@,
{
    reveal_strlit("in_memory");
    reveal_strlit("on_disk");
    assert("in_memory"@.len() == 9);
    assert("on_disk"@.len() == 7);
}

/// A mode is one of two, in any case; an unset one stays so, and any other name is reported.
pub proof fn law_modes_and_their_names(value: Seq<char>)
    ensures
        workload_mode(None) == Ok::<Option<Seq<char>>, ConfigErrorView>(None),
        ({
            let l = ascii_lower(value);
            let r = workload_mode(Some(value));
            &&& l == "in_memory"@ ==> r == Ok::<Option<Seq<char>>, ConfigErrorView>(
                Some("in_memory"@),
            )
            &&& l == "on_disk"@ ==> r == Ok::<Option<Seq<char>>, ConfigErrorView>(Some("on_disk"@))
            &&& l != "in_memory"@ && l != "on_disk"@
                ==> r == Err::<Option<Seq<char>>, ConfigErrorView>(
                ConfigErrorView::UnknownMode(l),
            )
        }),
{
    lemma_workload_mode_names();
}

/// These texts differ from each other.
proof fn lemma_compression_names()
    ensures
        "1x"@ != "2x"@,
        "1x"@ != "4x"@,
        "1x"@ != "8x"@,
        "1x"@ != "16x"@,
        "1x"@ != "32x"@,
        "2x"@ != "4x"@,
        "2x"@ != "8x"@,
        "2x"@ != "16x"@,
        "2x"@ != "32x"@,
        "4x"@ != "8x"@,
        "4x"@ != "16x"@,
        "4x"@ != "32x"@,
        "8x"@ != "16x"@,
        "8x"@ != "32x"@,
        "16x"@ != "32x"@,
{
    reveal_strlit("1x");
    reveal_strlit("2x");
    reveal_strlit("4x");
    reveal_strlit("8x");
    reveal_strlit("16x");
    reveal_strlit("32x");
    assert("1x"@.len() == 2);
    assert("2x"@.len() == 2);
    assert("4x"@.len() == 2);
    assert("8x"@.len() == 2);
    assert("16x"@.len() == 3);
    assert("32x"@.len() == 3);
    assert("1x"@[0] != "2x"@[0]);
    assert("1x"@[0] != "4x"@[0]);
    assert("1x"@[0] != "8x"@[0]);
    assert("2x"@[0] != "4x"@[0]);
    assert("2x"@[0] != "8x"@[0]);
    assert("4x"@[0] != "8x"@[0]);
    assert("16x"@[0] != "32x"@[0]);
}

/// A compression level is one of six, in any case; an unset one stays so, and any other is
/// reported.
pub proof fn law_compression_levels(value: Seq<char>)
    ensures
        compression(None) == Ok::<Option<Seq<char>>, ConfigErrorView>(None),
        ({
            let l = ascii_lower(value);
            let r = compression(Some(value));
            &&& l == "1x"@ ==> r == Ok::<Option<Seq<char>>, ConfigErrorView>(Some("1x"@))
            &&& l == "2x"@ ==> r == Ok::<Option<Seq<char>>, ConfigErrorView>(Some("2x"@))
            &&& l == "4x"@ ==> r == Ok::<Option<Seq<char>>, ConfigErrorView>(Some("4x"@))
            &&& l == "8x"@ ==> r == Ok::<Option<Seq<char>>, ConfigErrorView>(Some("8x"@))
            &&& l == "16x"@ ==> r == Ok::<Option<Seq<char>>, ConfigErrorView>(Some("16x"@))
            &&& l == "32x"@ ==> r == Ok::<Option<Seq<char>>, ConfigErrorView>(Some("32x"@))
            &&& l != "1x"@ && l != "2x"@ && l != "4x"@ && l != "8x"@ && l != "16x"@
                && l != "32x"@ ==> r == Err::<Option<Seq<char>>, ConfigErrorView>(
                ConfigErrorView::UnknownCompressionLevel(l),
            )
        }),
{
    lemma_compression_names();
}

/// These texts differ from each other.
proof fn lemma_data_type_names()
    ensures
        "float32"@ != "f32"@,
        "float32"@ != "float"@,
        "float32"@ != "byte"@,
        "float32"@ != "int8"@,
        "float32"@ != "i8"@,
        "float32"@ != "binary"@,
        "float32"@ != "float16"@,
        "float32"@ != "f16"@,
        "float32"@ != "uint8"@,
        "float32"@ != "u8"@,
        "f32"@ != "float"@,
        "f32"@ != "byte"@,
        "f32"@ != "int8"@,
        "f32"@ != "i8"@,
        "f32"@ != "binary"@,
        "f32"@ != "float16"@,
        "f32"@ != "f16"@,
        "f32"@ != "uint8"@,
        "f32"@ != "u8"@,
        "float"@ != "byte"@,
        "float"@ != "int8"@,
        "float"@ != "i8"@,
        "float"@ != "binary"@,
        "float"@ != "float16"@,
        "float"@ != "f16"@,
        "float"@ != "uint8"@,
        "float"@ != "u8"@,
        "byte"@ != "int8"@,
        "byte"@ != "i8"@,
        "byte"@ != "binary"@,
        "byte"@ != "float16"@,
        "byte"@ != "f16"@,
        "byte"@ != "uint8"@,
        "byte"@ != "u8"@,
        "int8"@ != "i8"@,
        "int8"@ != "binary"@,
        "int8"@ != "float16"@,
        "int8"@ != "f16"@,
        "int8"@ != "uint8"@,
        "int8"@ != "u8"@,
        "i8"@ != "binary"@,
        "i8"@ != "float16"@,
        "i8"@ != "f16"@,
        "i8"@ != "uint8"@,
        "i8"@ != "u8"@,
        "binary"@ != "float16"@,
        "binary"@ != "f16"@,
        "binary"@ != "uint8"@,
        "binary"@ != "u8"@,
        "float16"@ != "f16"@,
        "float16"@ != "uint8"@,
        "float16"@ != "u8"@,
        "f16"@ != "uint8"@,
        "f16"@ != "u8"@,
        "uint8"@ != "u8"@,
{
    reveal_strlit("float32");
    reveal_strlit("f32");
    reveal_strlit("float");
    reveal_strlit("byte");
    reveal_strlit("int8");
    reveal_strlit("i8");
    reveal_strlit("binary");
    reveal_strlit("float16");
    reveal_strlit("f16");
    reveal_strlit("uint8");
    reveal_strlit("u8");
    assert("float32"@.len() == 7);
    assert("f32"@.len() == 3);
    assert("float"@.len() == 5);
    assert("byte"@.len() == 4);
    assert("int8"@.len() == 4);
    assert("i8"@.len() == 2);
    assert("binary"@.len() == 6);
    assert("float16"@.len() == 7);
    assert("f16"@.len() == 3);
    assert("uint8"@.len() == 5);
    assert("u8"@.len() == 2);
    assert("float32"@[5] != "float16"@[5]);
    assert("f32"@[1] != "f16"@[1]);
    assert("float"@[0] != "uint8"@[0]);
    assert("byte"@[0] != "int8"@[0]);
    assert("i8"@[0] != "u8"@[0]);
}

/// Every datatype that the server has has one type, by each of its names and in any case; an unset one
/// stays so; 16-bit floats and unsigned bytes are refused, each with an error of its own, and any
/// other name is reported.
pub proof fn law_datatypes_and_their_types(name: Seq<char>, value: Seq<char>)
    ensures
        data_type(name, None) == Ok::<Option<Seq<char>>, ConfigErrorView>(None),
        ({
            let l = ascii_lower(value);
            let r = data_type(name, Some(value));
            &&& l == "float32"@ || l == "f32"@ || l == "float"@
                ==> r == Ok::<Option<Seq<char>>, ConfigErrorView>(
                Some("float"@),
            )
            &&& l == "byte"@ || l == "int8"@ || l == "i8"@
                ==> r == Ok::<Option<Seq<char>>, ConfigErrorView>(
                Some("byte"@),
            )
            &&& l == "binary"@ ==> r == Ok::<Option<Seq<char>>, ConfigErrorView>(Some("binary"@))
            &&& l == "float16"@ || l == "f16"@ ==> r == Err::<Option<Seq<char>>, ConfigErrorView>(
                ConfigErrorView::Float16Datatype { name },
            )
            &&& l == "uint8"@ || l == "u8"@ ==> r == Err::<Option<Seq<char>>, ConfigErrorView>(
                ConfigErrorView::Uint8Datatype { name },
            )
            &&& l != "float32"@ && l != "f32"@ && l != "float"@ && l != "byte"@
                && l != "int8"@ && l != "i8"@ && l != "binary"@ && l != "float16"@
                && l != "f16"@ && l != "uint8"@ && l != "u8"@
                ==> r == Err::<Option<Seq<char>>, ConfigErrorView>(
                ConfigErrorView::UnknownDatatype { name, value: l },
            )
        }),
{
    lemma_data_type_names();
}

/// These texts differ from each other.
proof fn lemma_encoder_names()
    ensures
        "flat"@ != "sq"@,
        "flat"@ != "pq"@,
        "sq"@ != "pq"@,
{
    reveal_strlit("flat");
    reveal_strlit("sq");
    reveal_strlit("pq");
    assert("flat"@.len() == 4);
    assert("sq"@.len() == 2);
    assert("pq"@.len() == 2);
    assert("sq"@[0] != "pq"@[0]);
}

/// An encoder is one of three, in any case, and any other name is reported.
pub proof fn law_encoders_and_their_names(value: Seq<char>)
    ensures
        ascii_lower(value) == "flat"@ ==> encoder_name(value) == Ok::<Seq<char>, ConfigErrorView>(
            "flat"@,
        ),
        ascii_lower(value) == "sq"@ ==> encoder_name(value) == Ok::<Seq<char>, ConfigErrorView>(
            "sq"@,
        ),
        ascii_lower(value) == "pq"@ ==> encoder_name(value) == Ok::<Seq<char>, ConfigErrorView>(
            "pq"@,
        ),
        ascii_lower(value) != "flat"@ && ascii_lower(value) != "sq"@ && ascii_lower(value) != "pq"@
            ==> encoder_name(value) == Err::<Seq<char>, ConfigErrorView>(
            ConfigErrorView::UnknownEncoder(ascii_lower(value)),
        ),
{
    lemma_encoder_names();
}

/// The message of a configuration error names the vector and the value that it is about, and what
/// would be accepted.
pub proof fn law_what_configuration_errors_say(name: Seq<char>, value: Seq<char>)
    ensures
        config_error_text(ConfigErrorView::MissingSize(name)) == "vector `"@ + name
            + "` is dense but has no size: set `size:` in the vectors config or ensure the loader can infer it from the parquet schema"@,
        config_error_text(ConfigErrorView::UnknownDistance { name, value }) == "vector `"@ + name
            + "`: unknown distance `"@ + value
            + "` (expected one of: cosine, dot, euclid, manhattan)"@,
        config_error_text(ConfigErrorView::UnknownDatatype { name, value }) == "vector `"@ + name
            + "`: unknown datatype `"@ + value + "` (expected one of: float32, byte, binary)"@,
        config_error_text(ConfigErrorView::Float16Datatype { name }) == "vector `"@ + name
            + "`: datatype `float16` has no OpenSearch `data_type` — 16-bit storage is a faiss encoder, not an element type. Set `params.method.encoder: {name: sq, type: fp16, bits: 16}` and leave the vector's `datatype` at float32."@,
        config_error_text(ConfigErrorView::Uint8Datatype { name }) == "vector `"@ + name
            + "`: datatype `uint8` does not map onto OpenSearch's `byte` data_type — `byte` is SIGNED (-128..127) while `uint8` is 0..255, so half the range would be rejected or wrap. Use `datatype: byte` if the corpus really is signed 8-bit, or keep float32 and quantize with `params.method.encoder`."@,
        config_error_text(ConfigErrorView::UnknownMethodName(value)) == "unknown method name `"@
            + value + "` (expected one of: hnsw, ivf, flat, disk_ann)"@,
        config_error_text(ConfigErrorView::UnknownEngine(value)) == "unknown engine `"@ + value
            + "` (expected one of: faiss, lucene, nmslib, jvector)"@,
        config_error_text(ConfigErrorView::UnknownMode(value)) == "unknown vector mode `"@ + value
            + "` (expected one of: in_memory, on_disk)"@,
        config_error_text(ConfigErrorView::UnknownCompressionLevel(value))
            == "unknown compression_level `"@ + value + "` (expected one of: 1x, 2x, 4x, 8x, 16x, 32x)"@,
        config_error_text(ConfigErrorView::UnknownEncoder(value)) == "unknown encoder name `"@
            + value + "` (expected one of: flat, sq, pq)"@,
        config_error_text(
            ConfigErrorView::UnsupportedVectorKind { name, kind: VectorKind::Sparse },
        ) == "vector `"@ + name + "` is "@ + "Sparse"@
            + ": the opensearch backend supports dense vectors only for now"@,
        config_error_text(
            ConfigErrorView::UnsupportedVectorKind { name, kind: VectorKind::Multivector },
        ) == "vector `"@ + name + "` is "@ + "Multivector"@
            + ": the opensearch backend supports dense vectors only for now"@,
{
}

} // verus!
