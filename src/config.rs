use vstd::prelude::*;
use vstd::utf8::encode_utf8;

verus! {

/// One radio station of the configuration.
#[derive(Clone, Debug, PartialEq, Eq)]
pub struct Station {
    pub id: String,
    pub name: String,
    pub description: String,
    pub url: String,
    /// Image file name, relative to the image directory.
    pub image_file: String,
    /// Reconnect transparently when the source stream ends.
    pub auto_restart: bool,
    /// Start this station when the process starts.
    pub auto_start: bool,
}

impl Station {
    /// A copy of this station.
    pub fn copy(&self) -> (r: Station)
        ensures
            r == *self,
    {
        Station {
            id: self.id.clone(),
            name: self.name.clone(),
            description: self.description.clone(),
            url: self.url.clone(),
            image_file: self.image_file.clone(),
            auto_restart: self.auto_restart,
            auto_start: self.auto_start,
        }
    }
}

/// A user allowed to log in.
#[derive(Clone, Debug, PartialEq, Eq)]
pub struct User {
    pub username: String,
    pub password: String,
}

/// The shortest session key accepted, in bytes of UTF-8.
pub const MIN_SESSION_KEY_LEN: usize = 64;

/// The station id that the web interface keeps for itself.
pub const RESERVED_STATION_ID: &'static str = "url";

/// What a station's image path names on disk.
#[derive(Clone, Copy, Debug, PartialEq, Eq, Structural)]
pub enum ImageStatus {
    File,
    Missing,
    NotAFile,
}

/// Why a configuration is refused.
#[derive(Clone, Debug, PartialEq, Eq)]
pub enum ConfigError {
    /// The session key is shorter than the minimum; its length in bytes is given.
    KeyTooShort(usize),
    NoStations,
    EmptyStationId,
    ReservedStationId,
    DuplicateStationId(String),
    /// A second station is marked to start automatically.
    SecondAutoStart { station: String, first: String },
    ImageMissing { station: String, image: String },
    ImageNotAFile { station: String, image: String },
}

/// Some station before position `i` has the id of station `i`.
pub open spec fn id_seen_before(stations: Seq<Station>, i: int) -> bool {
    exists|j: int| 0 <= j < i && (#[trigger] stations[j]).id@ == stations[i].id@
}

/// The id of the first station before position `n` marked to start
/// automatically.
pub open spec fn first_auto_start(stations: Seq<Station>, n: int) -> Option<String>
    decreases n,
{
    if n <= 0 {
        None
    } else {
        match first_auto_start(stations, n - 1) {
            Some(id) => Some(id),
            None => if stations[n - 1].auto_start { Some(stations[n - 1].id) } else { None },
        }
    }
}

/// What is wrong with station `i`, given the stations before it; its checks
/// in order: an empty id, the reserved id, a repeated id, a second automatic
/// start, its image.
pub open spec fn station_error(stations: Seq<Station>, images: Seq<ImageStatus>, i: int) -> Option<ConfigError> {
    let st = stations[i];
    if st.id@.len() == 0 {
        Some(ConfigError::EmptyStationId)
    } else if st.id@ == RESERVED_STATION_ID@ {
        Some(ConfigError::ReservedStationId)
    } else if id_seen_before(stations, i) {
        Some(ConfigError::DuplicateStationId(st.id))
    } else if st.auto_start && first_auto_start(stations, i) is Some {
        Some(ConfigError::SecondAutoStart { station: st.id, first: first_auto_start(stations, i)->Some_0 })
    } else {
        match images[i] {
            ImageStatus::File => None,
            ImageStatus::Missing => Some(ConfigError::ImageMissing { station: st.name, image: st.image_file }),
            ImageStatus::NotAFile => Some(ConfigError::ImageNotAFile { station: st.name, image: st.image_file }),
        }
    }
}

/// The error of the first station at or after position `i` that has one.
pub open spec fn first_station_error(stations: Seq<Station>, images: Seq<ImageStatus>, i: int) -> Option<ConfigError>
    decreases stations.len() - i,
{
    if i < 0 || i >= stations.len() {
        None
    } else {
        match station_error(stations, images, i) {
            Some(e) => Some(e),
            None => first_station_error(stations, images, i + 1),
        }
    }
}

/// The length of a string in bytes of UTF-8.
pub open spec fn byte_len(s: String) -> nat {
    encode_utf8(s@).len()
}

/// The verdict on a configuration whose station images are as `images` says.
pub open spec fn validate_spec(c: Config, images: Seq<ImageStatus>) -> Result<(), ConfigError> {
    if byte_len(c.session_key) < MIN_SESSION_KEY_LEN {
        Err(ConfigError::KeyTooShort(byte_len(c.session_key) as usize))
    } else if c.stations@.len() == 0 {
        Err(ConfigError::NoStations)
    } else {
        match first_station_error(c.stations@, images, 0) {
            Some(e) => Err(e),
            None => Ok(()),
        }
    }
}

/// The configuration file's contents.
#[derive(Clone, Debug, PartialEq, Eq)]
pub struct Config {
    pub port: u16,
    pub session_key: String,
    pub users: Vec<User>,
    pub stations: Vec<Station>,
}

impl Config {
    /// Checks the configuration: a session key of enough bytes, at least one
    /// station, and for each station in order a non-empty id other than the
    /// reserved one, an id no earlier station has, at most one station that starts
    /// automatically, and an image that is a file. `images` says, station by
    /// station, what each image path names on disk.
    pub fn validate(&self, images: &Vec<ImageStatus>) -> (r: Result<(), ConfigError>)
        requires
            images@.len() == self.stations@.len(),
        ensures
            r == validate_spec(*self, images@),
    {
        let key_len: usize = self.session_key.as_str().as_bytes().len();
        if key_len < MIN_SESSION_KEY_LEN {
            return Err(ConfigError::KeyTooShort(key_len));
        }
        if self.stations.len() == 0 {
            return Err(ConfigError::NoStations);
        }
        let reserved: String = RESERVED_STATION_ID.to_owned();
        let mut auto_start_id: Option<String> = None;
        let n: usize = self.stations.len();
        let mut i: usize = 0;
        while i < n
            invariant
                n == self.stations@.len(),
                n == images@.len(),
                0 < n,
                byte_len(self.session_key) >= MIN_SESSION_KEY_LEN,
                0 <= i <= n,
                reserved@ == RESERVED_STATION_ID@,
                auto_start_id == first_auto_start(self.stations@, i as int),
                first_station_error(self.stations@, images@, 0) == first_station_error(self.stations@, images@, i as int),
            decreases n - i,
        {
            let station = &self.stations[i];
            proof {
                lemma_first_error_step(self.stations@, images@, i as int);
            }
            if station.id.as_str().is_empty() {
                return Err(ConfigError::EmptyStationId);
            }
            if station.id == reserved {
                return Err(ConfigError::ReservedStationId);
            }
            let mut j: usize = 0;
            while j < i
                invariant
                    0 <= j <= i < n,
                    n == self.stations@.len(),
                    station == self.stations@[i as int],
                    n == images@.len(),
                    0 < n,
                    byte_len(self.session_key) >= MIN_SESSION_KEY_LEN,
                    station.id@ != RESERVED_STATION_ID@,
                    station.id@.len() != 0,
                    first_station_error(self.stations@, images@, 0) == first_station_error(self.stations@, images@, i as int),
                    forall|k: int| 0 <= k < j ==> (#[trigger] self.stations@[k]).id@ != station.id@,
                decreases i - j,
            {
                if self.stations[j].id == station.id {
                    assert(id_seen_before(self.stations@, i as int) && self.stations@[j as int].id@ == station.id@);
                    return Err(ConfigError::DuplicateStationId(station.id.clone()));
                }
                j = j + 1;
            }
            if station.auto_start {
                match &auto_start_id {
                    Some(first) => {
                        return Err(ConfigError::SecondAutoStart { station: station.id.clone(), first: first.clone() });
                    },
                    None => {
                        auto_start_id = Some(station.id.clone());
                    },
                }
            }
            match images[i] {
                ImageStatus::File => {},
                ImageStatus::Missing => {
                    return Err(ConfigError::ImageMissing { station: station.name.clone(), image: station.image_file.clone() });
                },
                ImageStatus::NotAFile => {
                    return Err(ConfigError::ImageNotAFile { station: station.name.clone(), image: station.image_file.clone() });
                },
            }
            i = i + 1;
        }
        Ok(())
    }
}

/// Unfolds the scan for the first station error by one station.
proof fn lemma_first_error_step(stations: Seq<Station>, images: Seq<ImageStatus>, i: int)
    requires
        0 <= i < stations.len(),
    ensures
        first_station_error(stations, images, i) == match station_error(stations, images, i) {
            Some(e) => Some(e),
            None => first_station_error(stations, images, i + 1),
        },
        first_auto_start(stations, i + 1) == match first_auto_start(stations, i) {
            Some(id) => Some(id),
            None => if stations[i].auto_start { Some(stations[i].id) } else { None },
        },
{
}

} // verus!
