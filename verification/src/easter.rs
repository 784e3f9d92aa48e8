use vstd::prelude::*;

verus! {


pub open spec fn spec_western_easter_ordinal_1900s(year: int) -> int {
    if year == 1900 {
        106
    } else if year == 1901 {
        98
    } else if year == 1902 {
        90
    } else if year == 1903 {
        103
    } else if year == 1904 {
        95
    } else if year == 1905 {
        114
    } else if year == 1906 {
        106
    } else if year == 1907 {
        91
    } else if year == 1908 {
        111
    } else if year == 1909 {
        102
    } else {
        0
    }
}

pub open spec fn spec_western_easter_ordinal_1910s(year: int) -> int {
    if year == 1910 {
        87
    } else if year == 1911 {
        107
    } else if year == 1912 {
        99
    } else if year == 1913 {
        83
    } else if year == 1914 {
        103
    } else if year == 1915 {
        95
    } else if year == 1916 {
        115
    } else if year == 1917 {
        99
    } else if year == 1918 {
        91
    } else if year == 1919 {
        111
    } else {
        0
    }
}

pub open spec fn spec_western_easter_ordinal_1920s(year: int) -> int {
    if year == 1920 {
        96
    } else if year == 1921 {
        87
    } else if year == 1922 {
        107
    } else if year == 1923 {
        92
    } else if year == 1924 {
        112
    } else if year == 1925 {
        103
    } else if year == 1926 {
        95
    } else if year == 1927 {
        108
    } else if year == 1928 {
        100
    } else if year == 1929 {
        91
    } else {
        0
    }
}

pub open spec fn spec_western_easter_ordinal_1930s(year: int) -> int {
    if year == 1930 {
        111
    } else if year == 1931 {
        96
    } else if year == 1932 {
        88
    } else if year == 1933 {
        107
    } else if year == 1934 {
        92
    } else if year == 1935 {
        112
    } else if year == 1936 {
        104
    } else if year == 1937 {
        88
    } else if year == 1938 {
        108
    } else if year == 1939 {
        100
    } else {
        0
    }
}

pub open spec fn spec_western_easter_ordinal_1940s(year: int) -> int {
    if year == 1940 {
        85
    } else if year == 1941 {
        104
    } else if year == 1942 {
        96
    } else if year == 1943 {
        116
    } else if year == 1944 {
        101
    } else if year == 1945 {
        92
    } else if year == 1946 {
        112
    } else if year == 1947 {
        97
    } else if year == 1948 {
        89
    } else if year == 1949 {
        108
    } else {
        0
    }
}

pub open spec fn spec_western_easter_ordinal_1950s(year: int) -> int {
    if year == 1950 {
        100
    } else if year == 1951 {
        85
    } else if year == 1952 {
        105
    } else if year == 1953 {
        96
    } else if year == 1954 {
        109
    } else if year == 1955 {
        101
    } else if year == 1956 {
        93
    } else if year == 1957 {
        112
    } else if year == 1958 {
        97
    } else if year == 1959 {
        89
    } else {
        0
    }
}

pub open spec fn spec_western_easter_ordinal_1960s(year: int) -> int {
    if year == 1960 {
        109
    } else if year == 1961 {
        93
    } else if year == 1962 {
        113
    } else if year == 1963 {
        105
    } else if year == 1964 {
        90
    } else if year == 1965 {
        109
    } else if year == 1966 {
        101
    } else if year == 1967 {
        86
    } else if year == 1968 {
        106
    } else if year == 1969 {
        97
    } else {
        0
    }
}

pub open spec fn spec_western_easter_ordinal_1970s(year: int) -> int {
    if year == 1970 {
        89
    } else if year == 1971 {
        102
    } else if year == 1972 {
        94
    } else if year == 1973 {
        113
    } else if year == 1974 {
        105
    } else if year == 1975 {
        90
    } else if year == 1976 {
        110
    } else if year == 1977 {
        101
    } else if year == 1978 {
        86
    } else if year == 1979 {
        106
    } else {
        0
    }
}

pub open spec fn spec_western_easter_ordinal_1980s(year: int) -> int {
    if year == 1980 {
        98
    } else if year == 1981 {
        110
    } else if year == 1982 {
        102
    } else if year == 1983 {
        94
    } else if year == 1984 {
        114
    } else if year == 1985 {
        98
    } else if year == 1986 {
        90
    } else if year == 1987 {
        110
    } else if year == 1988 {
        95
    } else if year == 1989 {
        86
    } else {
        0
    }
}

pub open spec fn spec_western_easter_ordinal_1990s(year: int) -> int {
    if year == 1990 {
        106
    } else if year == 1991 {
        91
    } else if year == 1992 {
        111
    } else if year == 1993 {
        102
    } else if year == 1994 {
        94
    } else if year == 1995 {
        107
    } else if year == 1996 {
        99
    } else if year == 1997 {
        90
    } else if year == 1998 {
        103
    } else if year == 1999 {
        95
    } else {
        0
    }
}

pub open spec fn spec_western_easter_ordinal_2000s(year: int) -> int {
    if year == 2000 {
        115
    } else if year == 2001 {
        106
    } else if year == 2002 {
        91
    } else if year == 2003 {
        111
    } else if year == 2004 {
        103
    } else if year == 2005 {
        87
    } else if year == 2006 {
        107
    } else if year == 2007 {
        99
    } else if year == 2008 {
        84
    } else if year == 2009 {
        103
    } else {
        0
    }
}

pub open spec fn spec_western_easter_ordinal_2010s(year: int) -> int {
    if year == 2010 {
        95
    } else if year == 2011 {
        115
    } else if year == 2012 {
        100
    } else if year == 2013 {
        91
    } else if year == 2014 {
        111
    } else if year == 2015 {
        96
    } else if year == 2016 {
        88
    } else if year == 2017 {
        107
    } else if year == 2018 {
        92
    } else if year == 2019 {
        112
    } else {
        0
    }
}

pub open spec fn spec_western_easter_ordinal_2020s(year: int) -> int {
    if year == 2020 {
        104
    } else if year == 2021 {
        95
    } else if year == 2022 {
        108
    } else if year == 2023 {
        100
    } else if year == 2024 {
        92
    } else if year == 2025 {
        111
    } else if year == 2026 {
        96
    } else if year == 2027 {
        88
    } else if year == 2028 {
        108
    } else if year == 2029 {
        92
    } else {
        0
    }
}

pub open spec fn spec_western_easter_ordinal_2030s(year: int) -> int {
    if year == 2030 {
        112
    } else if year == 2031 {
        104
    } else if year == 2032 {
        89
    } else if year == 2033 {
        108
    } else if year == 2034 {
        100
    } else if year == 2035 {
        85
    } else if year == 2036 {
        105
    } else if year == 2037 {
        96
    } else if year == 2038 {
        116
    } else if year == 2039 {
        101
    } else {
        0
    }
}

pub open spec fn spec_western_easter_ordinal_2040s(year: int) -> int {
    if year == 2040 {
        93
    } else if year == 2041 {
        112
    } else if year == 2042 {
        97
    } else if year == 2043 {
        89
    } else if year == 2044 {
        109
    } else if year == 2045 {
        100
    } else if year == 2046 {
        85
    } else if year == 2047 {
        105
    } else if year == 2048 {
        97
    } else if year == 2049 {
        109
    } else {
        0
    }
}

pub open spec fn spec_western_easter_ordinal_2050s(year: int) -> int {
    if year == 2050 {
        101
    } else if year == 2051 {
        93
    } else if year == 2052 {
        113
    } else if year == 2053 {
        97
    } else if year == 2054 {
        89
    } else if year == 2055 {
        109
    } else if year == 2056 {
        94
    } else if year == 2057 {
        113
    } else if year == 2058 {
        105
    } else if year == 2059 {
        90
    } else {
        0
    }
}

pub open spec fn spec_western_easter_ordinal_2060s(year: int) -> int {
    if year == 2060 {
        110
    } else if year == 2061 {
        101
    } else if year == 2062 {
        86
    } else if year == 2063 {
        106
    } else if year == 2064 {
        98
    } else if year == 2065 {
        89
    } else if year == 2066 {
        102
    } else if year == 2067 {
        94
    } else if year == 2068 {
        114
    } else if year == 2069 {
        105
    } else {
        0
    }
}

pub open spec fn spec_western_easter_ordinal_2070s(year: int) -> int {
    if year == 2070 {
        90
    } else if year == 2071 {
        110
    } else if year == 2072 {
        102
    } else if year == 2073 {
        86
    } else if year == 2074 {
        106
    } else if year == 2075 {
        98
    } else if year == 2076 {
        111
    } else if year == 2077 {
        102
    } else if year == 2078 {
        94
    } else if year == 2079 {
        114
    } else {
        0
    }
}

pub open spec fn spec_western_easter_ordinal_2080s(year: int) -> int {
    if year == 2080 {
        99
    } else if year == 2081 {
        90
    } else if year == 2082 {
        110
    } else if year == 2083 {
        95
    } else if year == 2084 {
        87
    } else if year == 2085 {
        106
    } else if year == 2086 {
        91
    } else if year == 2087 {
        111
    } else if year == 2088 {
        103
    } else if year == 2089 {
        94
    } else {
        0
    }
}

pub open spec fn spec_western_easter_ordinal_2090s(year: int) -> int {
    if year == 2090 {
        107
    } else if year == 2091 {
        99
    } else if year == 2092 {
        91
    } else if year == 2093 {
        103
    } else if year == 2094 {
        95
    } else if year == 2095 {
        115
    } else if year == 2096 {
        107
    } else if year == 2097 {
        91
    } else if year == 2098 {
        111
    } else if year == 2099 {
        103
    } else {
        0
    }
}

pub open spec fn spec_western_easter_ordinal_2100s(year: int) -> int {
    if year == 2100 {
        88
    } else if year == 2101 {
        108
    } else if year == 2102 {
        100
    } else if year == 2103 {
        85
    } else if year == 2104 {
        105
    } else if year == 2105 {
        96
    } else if year == 2106 {
        109
    } else if year == 2107 {
        101
    } else if year == 2108 {
        93
    } else if year == 2109 {
        112
    } else {
        0
    }
}

pub open spec fn spec_western_easter_ordinal_2110s(year: int) -> int {
    if year == 2110 {
        97
    } else if year == 2111 {
        89
    } else if year == 2112 {
        109
    } else if year == 2113 {
        93
    } else if year == 2114 {
        113
    } else if year == 2115 {
        105
    } else if year == 2116 {
        90
    } else if year == 2117 {
        109
    } else if year == 2118 {
        101
    } else if year == 2119 {
        86
    } else {
        0
    }
}

pub open spec fn spec_western_easter_ordinal_2120s(year: int) -> int {
    if year == 2120 {
        106
    } else if year == 2121 {
        97
    } else if year == 2122 {
        89
    } else if year == 2123 {
        102
    } else if year == 2124 {
        94
    } else if year == 2125 {
        113
    } else if year == 2126 {
        105
    } else if year == 2127 {
        90
    } else if year == 2128 {
        110
    } else if year == 2129 {
        101
    } else {
        0
    }
}

pub open spec fn spec_western_easter_ordinal_2130s(year: int) -> int {
    if year == 2130 {
        86
    } else if year == 2131 {
        106
    } else if year == 2132 {
        98
    } else if year == 2133 {
        110
    } else if year == 2134 {
        102
    } else if year == 2135 {
        94
    } else if year == 2136 {
        114
    } else if year == 2137 {
        98
    } else if year == 2138 {
        90
    } else if year == 2139 {
        110
    } else {
        0
    }
}

pub open spec fn spec_western_easter_ordinal_2140s(year: int) -> int {
    if year == 2140 {
        95
    } else if year == 2141 {
        86
    } else if year == 2142 {
        106
    } else if year == 2143 {
        91
    } else if year == 2144 {
        111
    } else if year == 2145 {
        102
    } else if year == 2146 {
        94
    } else if year == 2147 {
        107
    } else if year == 2148 {
        99
    } else if year == 2149 {
        90
    } else {
        0
    }
}

pub open spec fn spec_western_easter_ordinal_2150s(year: int) -> int {
    if year == 2150 {
        103
    } else if year == 2151 {
        95
    } else if year == 2152 {
        115
    } else if year == 2153 {
        106
    } else if year == 2154 {
        91
    } else if year == 2155 {
        111
    } else if year == 2156 {
        103
    } else if year == 2157 {
        87
    } else if year == 2158 {
        107
    } else if year == 2159 {
        99
    } else {
        0
    }
}

pub open spec fn spec_western_easter_ordinal_2160s(year: int) -> int {
    if year == 2160 {
        84
    } else if year == 2161 {
        103
    } else if year == 2162 {
        95
    } else if year == 2163 {
        115
    } else if year == 2164 {
        100
    } else if year == 2165 {
        91
    } else if year == 2166 {
        111
    } else if year == 2167 {
        96
    } else if year == 2168 {
        88
    } else if year == 2169 {
        107
    } else {
        0
    }
}

pub open spec fn spec_western_easter_ordinal_2170s(year: int) -> int {
    if year == 2170 {
        92
    } else if year == 2171 {
        112
    } else if year == 2172 {
        104
    } else if year == 2173 {
        95
    } else if year == 2174 {
        108
    } else if year == 2175 {
        100
    } else if year == 2176 {
        92
    } else if year == 2177 {
        111
    } else if year == 2178 {
        96
    } else if year == 2179 {
        88
    } else {
        0
    }
}

pub open spec fn spec_western_easter_ordinal_2180s(year: int) -> int {
    if year == 2180 {
        108
    } else if year == 2181 {
        92
    } else if year == 2182 {
        112
    } else if year == 2183 {
        104
    } else if year == 2184 {
        89
    } else if year == 2185 {
        108
    } else if year == 2186 {
        100
    } else if year == 2187 {
        85
    } else if year == 2188 {
        105
    } else if year == 2189 {
        96
    } else {
        0
    }
}

pub open spec fn spec_western_easter_ordinal_2190s(year: int) -> int {
    if year == 2190 {
        116
    } else if year == 2191 {
        101
    } else if year == 2192 {
        93
    } else if year == 2193 {
        112
    } else if year == 2194 {
        97
    } else if year == 2195 {
        89
    } else if year == 2196 {
        109
    } else if year == 2197 {
        100
    } else if year == 2198 {
        85
    } else if year == 2199 {
        105
    } else {
        0
    }
}

/// The day-of-year (1 January as 1) of Western Easter Monday in `year`,
/// per the bundled table covering the years 1900 through 2199.
pub open spec fn spec_western_easter_ordinal(year: int) -> int {
    if year < 1910 {
        spec_western_easter_ordinal_1900s(year)
    } else if year < 1920 {
        spec_western_easter_ordinal_1910s(year)
    } else if year < 1930 {
        spec_western_easter_ordinal_1920s(year)
    } else if year < 1940 {
        spec_western_easter_ordinal_1930s(year)
    } else if year < 1950 {
        spec_western_easter_ordinal_1940s(year)
    } else if year < 1960 {
        spec_western_easter_ordinal_1950s(year)
    } else if year < 1970 {
        spec_western_easter_ordinal_1960s(year)
    } else if year < 1980 {
        spec_western_easter_ordinal_1970s(year)
    } else if year < 1990 {
        spec_western_easter_ordinal_1980s(year)
    } else if year < 2000 {
        spec_western_easter_ordinal_1990s(year)
    } else if year < 2010 {
        spec_western_easter_ordinal_2000s(year)
    } else if year < 2020 {
        spec_western_easter_ordinal_2010s(year)
    } else if year < 2030 {
        spec_western_easter_ordinal_2020s(year)
    } else if year < 2040 {
        spec_western_easter_ordinal_2030s(year)
    } else if year < 2050 {
        spec_western_easter_ordinal_2040s(year)
    } else if year < 2060 {
        spec_western_easter_ordinal_2050s(year)
    } else if year < 2070 {
        spec_western_easter_ordinal_2060s(year)
    } else if year < 2080 {
        spec_western_easter_ordinal_2070s(year)
    } else if year < 2090 {
        spec_western_easter_ordinal_2080s(year)
    } else if year < 2100 {
        spec_western_easter_ordinal_2090s(year)
    } else if year < 2110 {
        spec_western_easter_ordinal_2100s(year)
    } else if year < 2120 {
        spec_western_easter_ordinal_2110s(year)
    } else if year < 2130 {
        spec_western_easter_ordinal_2120s(year)
    } else if year < 2140 {
        spec_western_easter_ordinal_2130s(year)
    } else if year < 2150 {
        spec_western_easter_ordinal_2140s(year)
    } else if year < 2160 {
        spec_western_easter_ordinal_2150s(year)
    } else if year < 2170 {
        spec_western_easter_ordinal_2160s(year)
    } else if year < 2180 {
        spec_western_easter_ordinal_2170s(year)
    } else if year < 2190 {
        spec_western_easter_ordinal_2180s(year)
    } else if year < 2200 {
        spec_western_easter_ordinal_2190s(year)
    } else {
        0
    }
}

/// The day-of-year (1 January as 1) of Western Easter Monday in `year`,
/// looked up in the bundled table.
pub fn western_easter_ordinal(year: u16) -> (r: u16)
    requires
        1900 <= year <= 2199,
    ensures
        r as int == spec_western_easter_ordinal(year as int),
        83 <= r <= 130,
{
    match year {
        1900 => 106,
        1901 => 98,
        1902 => 90,
        1903 => 103,
        1904 => 95,
        1905 => 114,
        1906 => 106,
        1907 => 91,
        1908 => 111,
        1909 => 102,
        1910 => 87,
        1911 => 107,
        1912 => 99,
        1913 => 83,
        1914 => 103,
        1915 => 95,
        1916 => 115,
        1917 => 99,
        1918 => 91,
        1919 => 111,
        1920 => 96,
        1921 => 87,
        1922 => 107,
        1923 => 92,
        1924 => 112,
        1925 => 103,
        1926 => 95,
        1927 => 108,
        1928 => 100,
        1929 => 91,
        1930 => 111,
        1931 => 96,
        1932 => 88,
        1933 => 107,
        1934 => 92,
        1935 => 112,
        1936 => 104,
        1937 => 88,
        1938 => 108,
        1939 => 100,
        1940 => 85,
        1941 => 104,
        1942 => 96,
        1943 => 116,
        1944 => 101,
        1945 => 92,
        1946 => 112,
        1947 => 97,
        1948 => 89,
        1949 => 108,
        1950 => 100,
        1951 => 85,
        1952 => 105,
        1953 => 96,
        1954 => 109,
        1955 => 101,
        1956 => 93,
        1957 => 112,
        1958 => 97,
        1959 => 89,
        1960 => 109,
        1961 => 93,
        1962 => 113,
        1963 => 105,
        1964 => 90,
        1965 => 109,
        1966 => 101,
        1967 => 86,
        1968 => 106,
        1969 => 97,
        1970 => 89,
        1971 => 102,
        1972 => 94,
        1973 => 113,
        1974 => 105,
        1975 => 90,
        1976 => 110,
        1977 => 101,
        1978 => 86,
        1979 => 106,
        1980 => 98,
        1981 => 110,
        1982 => 102,
        1983 => 94,
        1984 => 114,
        1985 => 98,
        1986 => 90,
        1987 => 110,
        1988 => 95,
        1989 => 86,
        1990 => 106,
        1991 => 91,
        1992 => 111,
        1993 => 102,
        1994 => 94,
        1995 => 107,
        1996 => 99,
        1997 => 90,
        1998 => 103,
        1999 => 95,
        2000 => 115,
        2001 => 106,
        2002 => 91,
        2003 => 111,
        2004 => 103,
        2005 => 87,
        2006 => 107,
        2007 => 99,
        2008 => 84,
        2009 => 103,
        2010 => 95,
        2011 => 115,
        2012 => 100,
        2013 => 91,
        2014 => 111,
        2015 => 96,
        2016 => 88,
        2017 => 107,
        2018 => 92,
        2019 => 112,
        2020 => 104,
        2021 => 95,
        2022 => 108,
        2023 => 100,
        2024 => 92,
        2025 => 111,
        2026 => 96,
        2027 => 88,
        2028 => 108,
        2029 => 92,
        2030 => 112,
        2031 => 104,
        2032 => 89,
        2033 => 108,
        2034 => 100,
        2035 => 85,
        2036 => 105,
        2037 => 96,
        2038 => 116,
        2039 => 101,
        2040 => 93,
        2041 => 112,
        2042 => 97,
        2043 => 89,
        2044 => 109,
        2045 => 100,
        2046 => 85,
        2047 => 105,
        2048 => 97,
        2049 => 109,
        2050 => 101,
        2051 => 93,
        2052 => 113,
        2053 => 97,
        2054 => 89,
        2055 => 109,
        2056 => 94,
        2057 => 113,
        2058 => 105,
        2059 => 90,
        2060 => 110,
        2061 => 101,
        2062 => 86,
        2063 => 106,
        2064 => 98,
        2065 => 89,
        2066 => 102,
        2067 => 94,
        2068 => 114,
        2069 => 105,
        2070 => 90,
        2071 => 110,
        2072 => 102,
        2073 => 86,
        2074 => 106,
        2075 => 98,
        2076 => 111,
        2077 => 102,
        2078 => 94,
        2079 => 114,
        2080 => 99,
        2081 => 90,
        2082 => 110,
        2083 => 95,
        2084 => 87,
        2085 => 106,
        2086 => 91,
        2087 => 111,
        2088 => 103,
        2089 => 94,
        2090 => 107,
        2091 => 99,
        2092 => 91,
        2093 => 103,
        2094 => 95,
        2095 => 115,
        2096 => 107,
        2097 => 91,
        2098 => 111,
        2099 => 103,
        2100 => 88,
        2101 => 108,
        2102 => 100,
        2103 => 85,
        2104 => 105,
        2105 => 96,
        2106 => 109,
        2107 => 101,
        2108 => 93,
        2109 => 112,
        2110 => 97,
        2111 => 89,
        2112 => 109,
        2113 => 93,
        2114 => 113,
        2115 => 105,
        2116 => 90,
        2117 => 109,
        2118 => 101,
        2119 => 86,
        2120 => 106,
        2121 => 97,
        2122 => 89,
        2123 => 102,
        2124 => 94,
        2125 => 113,
        2126 => 105,
        2127 => 90,
        2128 => 110,
        2129 => 101,
        2130 => 86,
        2131 => 106,
        2132 => 98,
        2133 => 110,
        2134 => 102,
        2135 => 94,
        2136 => 114,
        2137 => 98,
        2138 => 90,
        2139 => 110,
        2140 => 95,
        2141 => 86,
        2142 => 106,
        2143 => 91,
        2144 => 111,
        2145 => 102,
        2146 => 94,
        2147 => 107,
        2148 => 99,
        2149 => 90,
        2150 => 103,
        2151 => 95,
        2152 => 115,
        2153 => 106,
        2154 => 91,
        2155 => 111,
        2156 => 103,
        2157 => 87,
        2158 => 107,
        2159 => 99,
        2160 => 84,
        2161 => 103,
        2162 => 95,
        2163 => 115,
        2164 => 100,
        2165 => 91,
        2166 => 111,
        2167 => 96,
        2168 => 88,
        2169 => 107,
        2170 => 92,
        2171 => 112,
        2172 => 104,
        2173 => 95,
        2174 => 108,
        2175 => 100,
        2176 => 92,
        2177 => 111,
        2178 => 96,
        2179 => 88,
        2180 => 108,
        2181 => 92,
        2182 => 112,
        2183 => 104,
        2184 => 89,
        2185 => 108,
        2186 => 100,
        2187 => 85,
        2188 => 105,
        2189 => 96,
        2190 => 116,
        2191 => 101,
        2192 => 93,
        2193 => 112,
        2194 => 97,
        2195 => 89,
        2196 => 109,
        2197 => 100,
        2198 => 85,
        2199 => 105,
        _ => 0,
    }
}

pub open spec fn spec_orthodox_easter_ordinal_1900s(year: int) -> int {
    if year == 1900 {
        113
    } else if year == 1901 {
        105
    } else if year == 1902 {
        118
    } else if year == 1903 {
        110
    } else if year == 1904 {
        102
    } else if year == 1905 {
        121
    } else if year == 1906 {
        106
    } else if year == 1907 {
        126
    } else if year == 1908 {
        118
    } else if year == 1909 {
        102
    } else {
        0
    }
}

pub open spec fn spec_orthodox_easter_ordinal_1910s(year: int) -> int {
    if year == 1910 {
        122
    } else if year == 1911 {
        114
    } else if year == 1912 {
        99
    } else if year == 1913 {
        118
    } else if year == 1914 {
        110
    } else if year == 1915 {
        95
    } else if year == 1916 {
        115
    } else if year == 1917 {
        106
    } else if year == 1918 {
        126
    } else if year == 1919 {
        111
    } else {
        0
    }
}

pub open spec fn spec_orthodox_easter_ordinal_1920s(year: int) -> int {
    if year == 1920 {
        103
    } else if year == 1921 {
        122
    } else if year == 1922 {
        107
    } else if year == 1923 {
        99
    } else if year == 1924 {
        119
    } else if year == 1925 {
        110
    } else if year == 1926 {
        123
    } else if year == 1927 {
        115
    } else if year == 1928 {
        107
    } else if year == 1929 {
        126
    } else {
        0
    }
}

pub open spec fn spec_orthodox_easter_ordinal_1930s(year: int) -> int {
    if year == 1930 {
        111
    } else if year == 1931 {
        103
    } else if year == 1932 {
        123
    } else if year == 1933 {
        107
    } else if year == 1934 {
        99
    } else if year == 1935 {
        119
    } else if year == 1936 {
        104
    } else if year == 1937 {
        123
    } else if year == 1938 {
        115
    } else if year == 1939 {
        100
    } else {
        0
    }
}

pub open spec fn spec_orthodox_easter_ordinal_1940s(year: int) -> int {
    if year == 1940 {
        120
    } else if year == 1941 {
        111
    } else if year == 1942 {
        96
    } else if year == 1943 {
        116
    } else if year == 1944 {
        108
    } else if year == 1945 {
        127
    } else if year == 1946 {
        112
    } else if year == 1947 {
        104
    } else if year == 1948 {
        124
    } else if year == 1949 {
        115
    } else {
        0
    }
}

pub open spec fn spec_orthodox_easter_ordinal_1950s(year: int) -> int {
    if year == 1950 {
        100
    } else if year == 1951 {
        120
    } else if year == 1952 {
        112
    } else if year == 1953 {
        96
    } else if year == 1954 {
        116
    } else if year == 1955 {
        108
    } else if year == 1956 {
        128
    } else if year == 1957 {
        112
    } else if year == 1958 {
        104
    } else if year == 1959 {
        124
    } else {
        0
    }
}

pub open spec fn spec_orthodox_easter_ordinal_1960s(year: int) -> int {
    if year == 1960 {
        109
    } else if year == 1961 {
        100
    } else if year == 1962 {
        120
    } else if year == 1963 {
        105
    } else if year == 1964 {
        125
    } else if year == 1965 {
        116
    } else if year == 1966 {
        101
    } else if year == 1967 {
        121
    } else if year == 1968 {
        113
    } else if year == 1969 {
        104
    } else {
        0
    }
}

pub open spec fn spec_orthodox_easter_ordinal_1970s(year: int) -> int {
    if year == 1970 {
        117
    } else if year == 1971 {
        109
    } else if year == 1972 {
        101
    } else if year == 1973 {
        120
    } else if year == 1974 {
        105
    } else if year == 1975 {
        125
    } else if year == 1976 {
        117
    } else if year == 1977 {
        101
    } else if year == 1978 {
        121
    } else if year == 1979 {
        113
    } else {
        0
    }
}

pub open spec fn spec_orthodox_easter_ordinal_1980s(year: int) -> int {
    if year == 1980 {
        98
    } else if year == 1981 {
        117
    } else if year == 1982 {
        109
    } else if year == 1983 {
        129
    } else if year == 1984 {
        114
    } else if year == 1985 {
        105
    } else if year == 1986 {
        125
    } else if year == 1987 {
        110
    } else if year == 1988 {
        102
    } else if year == 1989 {
        121
    } else {
        0
    }
}

pub open spec fn spec_orthodox_easter_ordinal_1990s(year: int) -> int {
    if year == 1990 {
        106
    } else if year == 1991 {
        98
    } else if year == 1992 {
        118
    } else if year == 1993 {
        109
    } else if year == 1994 {
        122
    } else if year == 1995 {
        114
    } else if year == 1996 {
        106
    } else if year == 1997 {
        118
    } else if year == 1998 {
        110
    } else if year == 1999 {
        102
    } else {
        0
    }
}

pub open spec fn spec_orthodox_easter_ordinal_2000s(year: int) -> int {
    if year == 2000 {
        122
    } else if year == 2001 {
        106
    } else if year == 2002 {
        126
    } else if year == 2003 {
        118
    } else if year == 2004 {
        103
    } else if year == 2005 {
        122
    } else if year == 2006 {
        114
    } else if year == 2007 {
        99
    } else if year == 2008 {
        119
    } else if year == 2009 {
        110
    } else {
        0
    }
}

pub open spec fn spec_orthodox_easter_ordinal_2010s(year: int) -> int {
    if year == 2010 {
        95
    } else if year == 2011 {
        115
    } else if year == 2012 {
        107
    } else if year == 2013 {
        126
    } else if year == 2014 {
        111
    } else if year == 2015 {
        103
    } else if year == 2016 {
        123
    } else if year == 2017 {
        107
    } else if year == 2018 {
        99
    } else if year == 2019 {
        119
    } else {
        0
    }
}

pub open spec fn spec_orthodox_easter_ordinal_2020s(year: int) -> int {
    if year == 2020 {
        111
    } else if year == 2021 {
        123
    } else if year == 2022 {
        115
    } else if year == 2023 {
        107
    } else if year == 2024 {
        127
    } else if year == 2025 {
        111
    } else if year == 2026 {
        103
    } else if year == 2027 {
        123
    } else if year == 2028 {
        108
    } else if year == 2029 {
        99
    } else {
        0
    }
}

pub open spec fn spec_orthodox_easter_ordinal_2030s(year: int) -> int {
    if year == 2030 {
        119
    } else if year == 2031 {
        104
    } else if year == 2032 {
        124
    } else if year == 2033 {
        115
    } else if year == 2034 {
        100
    } else if year == 2035 {
        120
    } else if year == 2036 {
        112
    } else if year == 2037 {
        96
    } else if year == 2038 {
        116
    } else if year == 2039 {
        108
    } else {
        0
    }
}

pub open spec fn spec_orthodox_easter_ordinal_2040s(year: int) -> int {
    if year == 2040 {
        128
    } else if year == 2041 {
        112
    } else if year == 2042 {
        104
    } else if year == 2043 {
        124
    } else if year == 2044 {
        116
    } else if year == 2045 {
        100
    } else if year == 2046 {
        120
    } else if year == 2047 {
        112
    } else if year == 2048 {
        97
    } else if year == 2049 {
        116
    } else {
        0
    }
}

pub open spec fn spec_orthodox_easter_ordinal_2050s(year: int) -> int {
    if year == 2050 {
        108
    } else if year == 2051 {
        128
    } else if year == 2052 {
        113
    } else if year == 2053 {
        104
    } else if year == 2054 {
        124
    } else if year == 2055 {
        109
    } else if year == 2056 {
        101
    } else if year == 2057 {
        120
    } else if year == 2058 {
        105
    } else if year == 2059 {
        125
    } else {
        0
    }
}

pub open spec fn spec_orthodox_easter_ordinal_2060s(year: int) -> int {
    if year == 2060 {
        117
    } else if year == 2061 {
        101
    } else if year == 2062 {
        121
    } else if year == 2063 {
        113
    } else if year == 2064 {
        105
    } else if year == 2065 {
        117
    } else if year == 2066 {
        109
    } else if year == 2067 {
        101
    } else if year == 2068 {
        121
    } else if year == 2069 {
        105
    } else {
        0
    }
}

pub open spec fn spec_orthodox_easter_ordinal_2070s(year: int) -> int {
    if year == 2070 {
        125
    } else if year == 2071 {
        110
    } else if year == 2072 {
        102
    } else if year == 2073 {
        121
    } else if year == 2074 {
        113
    } else if year == 2075 {
        98
    } else if year == 2076 {
        118
    } else if year == 2077 {
        109
    } else if year == 2078 {
        129
    } else if year == 2079 {
        114
    } else {
        0
    }
}

pub open spec fn spec_orthodox_easter_ordinal_2080s(year: int) -> int {
    if year == 2080 {
        106
    } else if year == 2081 {
        125
    } else if year == 2082 {
        110
    } else if year == 2083 {
        102
    } else if year == 2084 {
        122
    } else if year == 2085 {
        106
    } else if year == 2086 {
        98
    } else if year == 2087 {
        118
    } else if year == 2088 {
        110
    } else if year == 2089 {
        122
    } else {
        0
    }
}

pub open spec fn spec_orthodox_easter_ordinal_2090s(year: int) -> int {
    if year == 2090 {
        114
    } else if year == 2091 {
        99
    } else if year == 2092 {
        119
    } else if year == 2093 {
        110
    } else if year == 2094 {
        102
    } else if year == 2095 {
        115
    } else if year == 2096 {
        107
    } else if year == 2097 {
        126
    } else if year == 2098 {
        118
    } else if year == 2099 {
        103
    } else {
        0
    }
}

pub open spec fn spec_orthodox_easter_ordinal_2100s(year: int) -> int {
    if year == 2100 {
        123
    } else if year == 2101 {
        115
    } else if year == 2102 {
        100
    } else if year == 2103 {
        120
    } else if year == 2104 {
        112
    } else if year == 2105 {
        96
    } else if year == 2106 {
        116
    } else if year == 2107 {
        108
    } else if year == 2108 {
        128
    } else if year == 2109 {
        112
    } else {
        0
    }
}

pub open spec fn spec_orthodox_easter_ordinal_2110s(year: int) -> int {
    if year == 2110 {
        104
    } else if year == 2111 {
        124
    } else if year == 2112 {
        109
    } else if year == 2113 {
        100
    } else if year == 2114 {
        120
    } else if year == 2115 {
        105
    } else if year == 2116 {
        125
    } else if year == 2117 {
        116
    } else if year == 2118 {
        108
    } else if year == 2119 {
        121
    } else {
        0
    }
}

pub open spec fn spec_orthodox_easter_ordinal_2120s(year: int) -> int {
    if year == 2120 {
        113
    } else if year == 2121 {
        104
    } else if year == 2122 {
        124
    } else if year == 2123 {
        109
    } else if year == 2124 {
        101
    } else if year == 2125 {
        120
    } else if year == 2126 {
        105
    } else if year == 2127 {
        125
    } else if year == 2128 {
        117
    } else if year == 2129 {
        101
    } else {
        0
    }
}

pub open spec fn spec_orthodox_easter_ordinal_2130s(year: int) -> int {
    if year == 2130 {
        121
    } else if year == 2131 {
        113
    } else if year == 2132 {
        98
    } else if year == 2133 {
        117
    } else if year == 2134 {
        109
    } else if year == 2135 {
        129
    } else if year == 2136 {
        114
    } else if year == 2137 {
        105
    } else if year == 2138 {
        125
    } else if year == 2139 {
        110
    } else {
        0
    }
}

pub open spec fn spec_orthodox_easter_ordinal_2140s(year: int) -> int {
    if year == 2140 {
        102
    } else if year == 2141 {
        121
    } else if year == 2142 {
        113
    } else if year == 2143 {
        98
    } else if year == 2144 {
        118
    } else if year == 2145 {
        109
    } else if year == 2146 {
        129
    } else if year == 2147 {
        114
    } else if year == 2148 {
        106
    } else if year == 2149 {
        125
    } else {
        0
    }
}

pub open spec fn spec_orthodox_easter_ordinal_2150s(year: int) -> int {
    if year == 2150 {
        110
    } else if year == 2151 {
        102
    } else if year == 2152 {
        122
    } else if year == 2153 {
        106
    } else if year == 2154 {
        126
    } else if year == 2155 {
        118
    } else if year == 2156 {
        103
    } else if year == 2157 {
        122
    } else if year == 2158 {
        114
    } else if year == 2159 {
        99
    } else {
        0
    }
}

pub open spec fn spec_orthodox_easter_ordinal_2160s(year: int) -> int {
    if year == 2160 {
        119
    } else if year == 2161 {
        110
    } else if year == 2162 {
        102
    } else if year == 2163 {
        115
    } else if year == 2164 {
        107
    } else if year == 2165 {
        126
    } else if year == 2166 {
        111
    } else if year == 2167 {
        103
    } else if year == 2168 {
        123
    } else if year == 2169 {
        114
    } else {
        0
    }
}

pub open spec fn spec_orthodox_easter_ordinal_2170s(year: int) -> int {
    if year == 2170 {
        99
    } else if year == 2171 {
        119
    } else if year == 2172 {
        111
    } else if year == 2173 {
        130
    } else if year == 2174 {
        115
    } else if year == 2175 {
        107
    } else if year == 2176 {
        127
    } else if year == 2177 {
        111
    } else if year == 2178 {
        103
    } else if year == 2179 {
        123
    } else {
        0
    }
}

pub open spec fn spec_orthodox_easter_ordinal_2180s(year: int) -> int {
    if year == 2180 {
        108
    } else if year == 2181 {
        99
    } else if year == 2182 {
        119
    } else if year == 2183 {
        104
    } else if year == 2184 {
        124
    } else if year == 2185 {
        115
    } else if year == 2186 {
        100
    } else if year == 2187 {
        120
    } else if year == 2188 {
        112
    } else if year == 2189 {
        103
    } else {
        0
    }
}

pub open spec fn spec_orthodox_easter_ordinal_2190s(year: int) -> int {
    if year == 2190 {
        116
    } else if year == 2191 {
        108
    } else if year == 2192 {
        128
    } else if year == 2193 {
        119
    } else if year == 2194 {
        104
    } else if year == 2195 {
        124
    } else if year == 2196 {
        116
    } else if year == 2197 {
        100
    } else if year == 2198 {
        120
    } else if year == 2199 {
        112
    } else {
        0
    }
}

/// The day-of-year (1 January as 1) of Orthodox Easter Monday in `year`,
/// per the bundled table covering the years 1900 through 2199.
pub open spec fn spec_orthodox_easter_ordinal(year: int) -> int {
    if year < 1910 {
        spec_orthodox_easter_ordinal_1900s(year)
    } else if year < 1920 {
        spec_orthodox_easter_ordinal_1910s(year)
    } else if year < 1930 {
        spec_orthodox_easter_ordinal_1920s(year)
    } else if year < 1940 {
        spec_orthodox_easter_ordinal_1930s(year)
    } else if year < 1950 {
        spec_orthodox_easter_ordinal_1940s(year)
    } else if year < 1960 {
        spec_orthodox_easter_ordinal_1950s(year)
    } else if year < 1970 {
        spec_orthodox_easter_ordinal_1960s(year)
    } else if year < 1980 {
        spec_orthodox_easter_ordinal_1970s(year)
    } else if year < 1990 {
        spec_orthodox_easter_ordinal_1980s(year)
    } else if year < 2000 {
        spec_orthodox_easter_ordinal_1990s(year)
    } else if year < 2010 {
        spec_orthodox_easter_ordinal_2000s(year)
    } else if year < 2020 {
        spec_orthodox_easter_ordinal_2010s(year)
    } else if year < 2030 {
        spec_orthodox_easter_ordinal_2020s(year)
    } else if year < 2040 {
        spec_orthodox_easter_ordinal_2030s(year)
    } else if year < 2050 {
        spec_orthodox_easter_ordinal_2040s(year)
    } else if year < 2060 {
        spec_orthodox_easter_ordinal_2050s(year)
    } else if year < 2070 {
        spec_orthodox_easter_ordinal_2060s(year)
    } else if year < 2080 {
        spec_orthodox_easter_ordinal_2070s(year)
    } else if year < 2090 {
        spec_orthodox_easter_ordinal_2080s(year)
    } else if year < 2100 {
        spec_orthodox_easter_ordinal_2090s(year)
    } else if year < 2110 {
        spec_orthodox_easter_ordinal_2100s(year)
    } else if year < 2120 {
        spec_orthodox_easter_ordinal_2110s(year)
    } else if year < 2130 {
        spec_orthodox_easter_ordinal_2120s(year)
    } else if year < 2140 {
        spec_orthodox_easter_ordinal_2130s(year)
    } else if year < 2150 {
        spec_orthodox_easter_ordinal_2140s(year)
    } else if year < 2160 {
        spec_orthodox_easter_ordinal_2150s(year)
    } else if year < 2170 {
        spec_orthodox_easter_ordinal_2160s(year)
    } else if year < 2180 {
        spec_orthodox_easter_ordinal_2170s(year)
    } else if year < 2190 {
        spec_orthodox_easter_ordinal_2180s(year)
    } else if year < 2200 {
        spec_orthodox_easter_ordinal_2190s(year)
    } else {
        0
    }
}

/// The day-of-year (1 January as 1) of Orthodox Easter Monday in `year`,
/// looked up in the bundled table.
pub fn orthodox_easter_ordinal(year: u16) -> (r: u16)
    requires
        1900 <= year <= 2199,
    ensures
        r as int == spec_orthodox_easter_ordinal(year as int),
        83 <= r <= 130,
{
    match year {
        1900 => 113,
        1901 => 105,
        1902 => 118,
        1903 => 110,
        1904 => 102,
        1905 => 121,
        1906 => 106,
        1907 => 126,
        1908 => 118,
        1909 => 102,
        1910 => 122,
        1911 => 114,
        1912 => 99,
        1913 => 118,
        1914 => 110,
        1915 => 95,
        1916 => 115,
        1917 => 106,
        1918 => 126,
        1919 => 111,
        1920 => 103,
        1921 => 122,
        1922 => 107,
        1923 => 99,
        1924 => 119,
        1925 => 110,
        1926 => 123,
        1927 => 115,
        1928 => 107,
        1929 => 126,
        1930 => 111,
        1931 => 103,
        1932 => 123,
        1933 => 107,
        1934 => 99,
        1935 => 119,
        1936 => 104,
        1937 => 123,
        1938 => 115,
        1939 => 100,
        1940 => 120,
        1941 => 111,
        1942 => 96,
        1943 => 116,
        1944 => 108,
        1945 => 127,
        1946 => 112,
        1947 => 104,
        1948 => 124,
        1949 => 115,
        1950 => 100,
        1951 => 120,
        1952 => 112,
        1953 => 96,
        1954 => 116,
        1955 => 108,
        1956 => 128,
        1957 => 112,
        1958 => 104,
        1959 => 124,
        1960 => 109,
        1961 => 100,
        1962 => 120,
        1963 => 105,
        1964 => 125,
        1965 => 116,
        1966 => 101,
        1967 => 121,
        1968 => 113,
        1969 => 104,
        1970 => 117,
        1971 => 109,
        1972 => 101,
        1973 => 120,
        1974 => 105,
        1975 => 125,
        1976 => 117,
        1977 => 101,
        1978 => 121,
        1979 => 113,
        1980 => 98,
        1981 => 117,
        1982 => 109,
        1983 => 129,
        1984 => 114,
        1985 => 105,
        1986 => 125,
        1987 => 110,
        1988 => 102,
        1989 => 121,
        1990 => 106,
        1991 => 98,
        1992 => 118,
        1993 => 109,
        1994 => 122,
        1995 => 114,
        1996 => 106,
        1997 => 118,
        1998 => 110,
        1999 => 102,
        2000 => 122,
        2001 => 106,
        2002 => 126,
        2003 => 118,
        2004 => 103,
        2005 => 122,
        2006 => 114,
        2007 => 99,
        2008 => 119,
        2009 => 110,
        2010 => 95,
        2011 => 115,
        2012 => 107,
        2013 => 126,
        2014 => 111,
        2015 => 103,
        2016 => 123,
        2017 => 107,
        2018 => 99,
        2019 => 119,
        2020 => 111,
        2021 => 123,
        2022 => 115,
        2023 => 107,
        2024 => 127,
        2025 => 111,
        2026 => 103,
        2027 => 123,
        2028 => 108,
        2029 => 99,
        2030 => 119,
        2031 => 104,
        2032 => 124,
        2033 => 115,
        2034 => 100,
        2035 => 120,
        2036 => 112,
        2037 => 96,
        2038 => 116,
        2039 => 108,
        2040 => 128,
        2041 => 112,
        2042 => 104,
        2043 => 124,
        2044 => 116,
        2045 => 100,
        2046 => 120,
        2047 => 112,
        2048 => 97,
        2049 => 116,
        2050 => 108,
        2051 => 128,
        2052 => 113,
        2053 => 104,
        2054 => 124,
        2055 => 109,
        2056 => 101,
        2057 => 120,
        2058 => 105,
        2059 => 125,
        2060 => 117,
        2061 => 101,
        2062 => 121,
        2063 => 113,
        2064 => 105,
        2065 => 117,
        2066 => 109,
        2067 => 101,
        2068 => 121,
        2069 => 105,
        2070 => 125,
        2071 => 110,
        2072 => 102,
        2073 => 121,
        2074 => 113,
        2075 => 98,
        2076 => 118,
        2077 => 109,
        2078 => 129,
        2079 => 114,
        2080 => 106,
        2081 => 125,
        2082 => 110,
        2083 => 102,
        2084 => 122,
        2085 => 106,
        2086 => 98,
        2087 => 118,
        2088 => 110,
        2089 => 122,
        2090 => 114,
        2091 => 99,
        2092 => 119,
        2093 => 110,
        2094 => 102,
        2095 => 115,
        2096 => 107,
        2097 => 126,
        2098 => 118,
        2099 => 103,
        2100 => 123,
        2101 => 115,
        2102 => 100,
        2103 => 120,
        2104 => 112,
        2105 => 96,
        2106 => 116,
        2107 => 108,
        2108 => 128,
        2109 => 112,
        2110 => 104,
        2111 => 124,
        2112 => 109,
        2113 => 100,
        2114 => 120,
        2115 => 105,
        2116 => 125,
        2117 => 116,
        2118 => 108,
        2119 => 121,
        2120 => 113,
        2121 => 104,
        2122 => 124,
        2123 => 109,
        2124 => 101,
        2125 => 120,
        2126 => 105,
        2127 => 125,
        2128 => 117,
        2129 => 101,
        2130 => 121,
        2131 => 113,
        2132 => 98,
        2133 => 117,
        2134 => 109,
        2135 => 129,
        2136 => 114,
        2137 => 105,
        2138 => 125,
        2139 => 110,
        2140 => 102,
        2141 => 121,
        2142 => 113,
        2143 => 98,
        2144 => 118,
        2145 => 109,
        2146 => 129,
        2147 => 114,
        2148 => 106,
        2149 => 125,
        2150 => 110,
        2151 => 102,
        2152 => 122,
        2153 => 106,
        2154 => 126,
        2155 => 118,
        2156 => 103,
        2157 => 122,
        2158 => 114,
        2159 => 99,
        2160 => 119,
        2161 => 110,
        2162 => 102,
        2163 => 115,
        2164 => 107,
        2165 => 126,
        2166 => 111,
        2167 => 103,
        2168 => 123,
        2169 => 114,
        2170 => 99,
        2171 => 119,
        2172 => 111,
        2173 => 130,
        2174 => 115,
        2175 => 107,
        2176 => 127,
        2177 => 111,
        2178 => 103,
        2179 => 123,
        2180 => 108,
        2181 => 99,
        2182 => 119,
        2183 => 104,
        2184 => 124,
        2185 => 115,
        2186 => 100,
        2187 => 120,
        2188 => 112,
        2189 => 103,
        2190 => 116,
        2191 => 108,
        2192 => 128,
        2193 => 119,
        2194 => 104,
        2195 => 124,
        2196 => 116,
        2197 => 100,
        2198 => 120,
        2199 => 112,
        _ => 0,
    }
}

} // verus!
